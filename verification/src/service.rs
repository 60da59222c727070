//! The background service: its files and commands on launchd and systemd, the search path that it
//! runs with, and what the service manager says of it.

use vstd::prelude::*;

use crate::json;
use crate::json::Fields;
use crate::json::Json;
use crate::json::JsonView;
use crate::path;
use crate::path::join_path;
use crate::text;
use crate::text::cat2;
use crate::text::cat3;
use crate::text::cat4;
use crate::text::chars_of;
use crate::text::comes_before;
use crate::text::contains_text;
use crate::text::ends_with;
use crate::text::find_char;
use crate::text::is_blank;
use crate::text::join;
use crate::text::no_texts;
use crate::text::push_text;
use crate::text::same_text;
use crate::text::split_char;
use crate::text::split_lines;
use crate::text::starts_with_char;
use crate::text::strip_prefix;
use crate::text::trim;

verus! {

// ---------------------------------------------------------------------------------------------
// Labels
// ---------------------------------------------------------------------------------------------

/// Why a service cannot be described.
#[derive(Debug, Clone, Copy, PartialEq, Eq, Structural)]
pub enum ServiceError {
    EmptyLabel,
    UnsupportedLabel,
    EmptyBridgeCommand,
    NoHome,
    UnsupportedPlatform,
}

/// The error in words.
pub open spec fn service_error(error: ServiceError) -> Seq<char> {
    match error {
        ServiceError::EmptyLabel => "daemon label cannot be empty"@,
        ServiceError::UnsupportedLabel => "daemon label contains unsupported characters"@,
        ServiceError::EmptyBridgeCommand => "bridge command cannot be empty"@,
        ServiceError::NoHome => "home directory is not available"@,
        ServiceError::UnsupportedPlatform => {
            "daemon service install is only supported on macOS launchd and Linux systemd"@
        },
    }
}

impl ServiceError {
    /// The error in words.
    pub fn message(&self) -> (out: &'static str)
        ensures
            out@ == service_error(*self),
    {
        match self {
            ServiceError::EmptyLabel => "daemon label cannot be empty",
            ServiceError::UnsupportedLabel => "daemon label contains unsupported characters",
            ServiceError::EmptyBridgeCommand => "bridge command cannot be empty",
            ServiceError::NoHome => "home directory is not available",
            ServiceError::UnsupportedPlatform => {
                "daemon service install is only supported on macOS launchd and Linux systemd"
            },
        }
    }
}

/// Why a label is refused, if at all.
pub open spec fn label_error(label: Seq<char>) -> Option<ServiceError> {
    let kept = text::trimmed(label);
    if kept.len() == 0 {
        Some(ServiceError::EmptyLabel)
    } else if kept.contains('/') || kept.contains('\\') || kept.contains('\'') {
        Some(ServiceError::UnsupportedLabel)
    } else {
        None
    }
}

/// Trims a label and checks that it can name a file and stand in a command.
pub fn validate_daemon_label<'a>(label: &'a str) -> (out: Result<&'a str, ServiceError>)
    ensures
        match out {
            Ok(kept) => label_error(label@) is None && kept@ == text::trimmed(label@),
            Err(error) => label_error(label@) == Some(error),
        },
{
    let kept = trim(label);
    if kept.unicode_len() == 0 {
        return Err(ServiceError::EmptyLabel);
    }
    if find_char(kept, '/').is_some() || find_char(kept, '\\').is_some() || find_char(
        kept,
        '\'',
    ).is_some() {
        return Err(ServiceError::UnsupportedLabel);
    }
    Ok(kept)
}

// ---------------------------------------------------------------------------------------------
// The search path
// ---------------------------------------------------------------------------------------------

/// The entries with one more, unless it is blank or there already.
pub open spec fn with_entry(entries: Seq<Seq<char>>, entry: Seq<char>) -> Seq<Seq<char>> {
    if text::blank(entry) || entries.contains(entry) {
        entries
    } else {
        entries.push(entry)
    }
}

/// The entries with several more.
pub open spec fn with_entries(entries: Seq<Seq<char>>, more: Seq<Seq<char>>) -> Seq<Seq<char>>
    decreases more.len(),
{
    if more.len() == 0 {
        entries
    } else {
        with_entry(with_entries(entries, more.drop_last()), more.last())
    }
}

/// Appends an entry to a search path, unless it is blank or there already.
pub fn push_path_entry(entries: &mut Vec<String>, path: &str)
    ensures
        text::texts(final(entries)@) == with_entry(text::texts(old(entries)@), path@),
{
    let ghost all = text::texts(entries@);
    if is_blank(path) {
        return ;
    }
    let mut i: usize = 0;
    while i < entries.len()
        invariant
            all == text::texts(entries@),
            all == text::texts(old(entries)@),
            i <= entries@.len(),
            forall|k: int| 0 <= k < i ==> all[k] != path@,
        decreases entries@.len() - i,
    {
        if same_text(entries[i].as_str(), path) {
            assert(all[i as int] == path@);
            assert(all.contains(path@));
            return ;
        }
        i = i + 1;
    }
    assert(!all.contains(path@));
    push_text(entries, path.to_owned());
}

/// Appends a directory below the home directory.
pub fn push_home_path(entries: &mut Vec<String>, home: &str, suffix: &str)
    ensures
        text::texts(final(entries)@) == with_entry(
            text::texts(old(entries)@),
            path::path_joined(home@, suffix@),
        ),
{
    let entry = join_path(home, suffix);
    push_path_entry(entries, entry.as_str());
}

fn push_path_entries(entries: &mut Vec<String>, more: &Vec<String>)
    ensures
        text::texts(final(entries)@) == with_entries(text::texts(old(entries)@), text::texts(more@)),
{
    let ghost before = text::texts(entries@);
    let ghost all = text::texts(more@);
    let mut i: usize = 0;
    assert(all.take(0) =~= Seq::<Seq<char>>::empty());
    while i < more.len()
        invariant
            all == text::texts(more@),
            i <= more@.len(),
            text::texts(entries@) == with_entries(before, all.take(i as int)),
        decreases more@.len() - i,
    {
        push_path_entry(entries, more[i].as_str());
        assert(all.take(i + 1).drop_last() =~= all.take(i as int));
        assert(all.take(i + 1).last() == all[i as int]);
        i = i + 1;
    }
    assert(all.take(i as int) =~= all);
}

/// A list of texts in order with one more at its place.
pub open spec fn with_sorted(list: Seq<Seq<char>>, item: Seq<char>) -> Seq<Seq<char>>
    decreases list.len(),
{
    if list.len() == 0 || !text::precedes(item, list.last()) {
        list.push(item)
    } else {
        with_sorted(list.drop_last(), item).push(list.last())
    }
}

/// The texts of a list in order.
pub open spec fn sorted(list: Seq<Seq<char>>) -> Seq<Seq<char>>
    decreases list.len(),
{
    if list.len() == 0 {
        list
    } else {
        with_sorted(sorted(list.drop_last()), list.last())
    }
}

/// No text comes before one that stands further to the front.
pub open spec fn in_order(list: Seq<Seq<char>>) -> bool {
    forall|i: int, j: int|
        0 <= i < j < list.len() ==> !text::precedes(#[trigger] list[j], #[trigger] list[i])
}

/// Sorting puts the texts in order and keeps each of them as often as it occurs.
pub proof fn sorting_orders_and_keeps(list: Seq<Seq<char>>)
    ensures
        in_order(sorted(list)),
        sorted(list).to_multiset() == list.to_multiset(),
        sorted(list).len() == list.len(),
    decreases list.len(),
{
    if list.len() > 0 {
        let front = list.drop_last();
        sorting_orders_and_keeps(front);
        lemma_with_sorted(sorted(front), list.last());
        assert(list =~= front.push(list.last()));
        front.to_multiset_ensures();
        assert(list.to_multiset() =~= front.to_multiset().insert(list.last()));
    }
}

proof fn lemma_with_sorted(list: Seq<Seq<char>>, item: Seq<char>)
    requires
        in_order(list),
    ensures
        in_order(with_sorted(list, item)),
        with_sorted(list, item).to_multiset() == list.to_multiset().insert(item),
        with_sorted(list, item).len() == list.len() + 1,
        forall|k: int|
            0 <= k < with_sorted(list, item).len() ==> (#[trigger] with_sorted(list, item)[k])
                == item || list.contains(with_sorted(list, item)[k]),
    decreases list.len(),
{
    let after = with_sorted(list, item);
    list.to_multiset_ensures();
    if list.len() == 0 || !text::precedes(item, list.last()) {
        assert forall|i: int, j: int| 0 <= i < j < after.len() implies !text::precedes(
            #[trigger] after[j],
            #[trigger] after[i],
        ) by {
            if j == list.len() {
                let last = list.last();
                text::texts_are_totally_ordered(item, after[i], last);
                text::texts_are_totally_ordered(after[i], last, item);
                if i < list.len() - 1 {
                    assert(!text::precedes(list[list.len() - 1], list[i]));
                    text::texts_are_totally_ordered(last, after[i], item);
                    text::texts_are_totally_ordered(last, item, after[i]);
                    text::texts_are_totally_ordered(item, last, after[i]);
                }
            }
        }
        assert forall|k: int| 0 <= k < after.len() implies (#[trigger] after[k]) == item
            || list.contains(after[k]) by {
            if k < list.len() {
                assert(list[k] == after[k]);
            }
        }
    } else {
        let front = list.drop_last();
        let last = list.last();
        assert(in_order(front)) by {
            assert forall|i: int, j: int| 0 <= i < j < front.len() implies !text::precedes(
                #[trigger] front[j],
                #[trigger] front[i],
            ) by {
                assert(front[j] == list[j] && front[i] == list[i]);
            }
        }
        lemma_with_sorted(front, item);
        let inner = with_sorted(front, item);
        inner.to_multiset_ensures();
        front.to_multiset_ensures();
        assert(list =~= front.push(last));
        assert(after.to_multiset() =~= list.to_multiset().insert(item));
        assert forall|i: int, j: int| 0 <= i < j < after.len() implies !text::precedes(
            #[trigger] after[j],
            #[trigger] after[i],
        ) by {
            if j < inner.len() {
                assert(after[j] == inner[j] && after[i] == inner[i]);
            } else {
                assert(after[i] == inner[i]);
                if inner[i] == item {
                    text::texts_are_totally_ordered(item, last, item);
                } else {
                    let k = choose|k: int| 0 <= k < front.len() && front[k] == inner[i];
                    assert(list[k] == inner[i]);
                    assert(!text::precedes(list[list.len() - 1], list[k]));
                }
            }
        }
        assert forall|k: int| 0 <= k < after.len() implies (#[trigger] after[k]) == item
            || list.contains(after[k]) by {
            if k < inner.len() {
                assert(after[k] == inner[k]);
                if inner[k] != item {
                    let m = choose|m: int| 0 <= m < front.len() && front[m] == inner[k];
                    assert(list[m] == inner[k]);
                }
            } else {
                assert(list[list.len() - 1] == last);
            }
        }
    }
}

fn insert_sorted(list: &mut Vec<String>, item: String)
    ensures
        text::texts(final(list)@) == with_sorted(text::texts(old(list)@), item@),
{
    let ghost all = text::texts(list@);
    let mut at: usize = list.len();
    assert(all.take(at as int) =~= all);
    assert(with_sorted(all, item@) + all.skip(at as int) =~= with_sorted(all, item@));
    while at > 0 && comes_before(item.as_str(), list[at - 1].as_str())
        invariant
            at <= list@.len(),
            all == text::texts(list@),
            all == text::texts(old(list)@),
            with_sorted(all.take(at as int), item@) + all.skip(at as int) == with_sorted(
                all,
                item@,
            ),
        decreases at,
    {
        let ghost here = all.take(at as int);
        assert(here.last() == all[at - 1]);
        assert(here.drop_last() =~= all.take(at - 1));
        assert(with_sorted(all.take(at - 1), item@) + all.skip(at - 1) =~= with_sorted(here, item@)
            + all.skip(at as int));
        at = at - 1;
    }
    let ghost here = all.take(at as int);
    if at > 0 {
        assert(here.last() == all[at - 1]);
    }
    assert(with_sorted(here, item@) =~= here.push(item@));
    list.insert(at, item);
    assert(text::texts(list@) =~= here.push(item@) + all.skip(at as int));
}

fn sort_texts(list: &Vec<String>) -> (out: Vec<String>)
    ensures
        text::texts(out@) == sorted(text::texts(list@)),
{
    let ghost all = text::texts(list@);
    let mut out = no_texts();
    let mut i: usize = 0;
    assert(all.take(0) =~= Seq::<Seq<char>>::empty());
    while i < list.len()
        invariant
            all == text::texts(list@),
            i <= list@.len(),
            text::texts(out@) == sorted(all.take(i as int)),
        decreases list@.len() - i,
    {
        insert_sorted(&mut out, list[i].clone());
        assert(all.take(i + 1).drop_last() =~= all.take(i as int));
        assert(all.take(i + 1).last() == all[i as int]);
        i = i + 1;
    }
    assert(all.take(i as int) =~= all);
    out
}

/// Appends the directories of installed node versions in order.
pub fn push_node_version_bins(entries: &mut Vec<String>, bins: &Vec<String>)
    ensures
        text::texts(final(entries)@) == with_entries(
            text::texts(old(entries)@),
            sorted(text::texts(bins@)),
        ),
{
    let ordered = sort_texts(bins);
    push_path_entries(entries, &ordered);
}

/// A home directory and the directories of the node versions below it.
pub struct HomePaths {
    pub home: String,
    /// Below `.config/nvm/versions/node`.
    pub config_nvm_bins: Vec<String>,
    /// Below `.nvm/versions/node`.
    pub nvm_bins: Vec<String>,
}

/// The directories of developer tools below a home directory.
pub open spec fn home_suffixes() -> Seq<Seq<char>> {
    seq![
        ".bun/bin"@,
        ".cargo/bin"@,
        ".local/bin"@,
        ".deno/bin"@,
        ".pyenv/shims"@,
        ".asdf/shims"@,
        "Library/pnpm"@,
        "go/bin"@,
    ]
}

/// The directories of developer tools of the system.
pub open spec fn system_entries() -> Seq<Seq<char>> {
    seq![
        "/opt/homebrew/bin"@,
        "/opt/homebrew/sbin"@,
        "/usr/local/bin"@,
        "/usr/bin"@,
        "/bin"@,
        "/usr/sbin"@,
        "/sbin"@,
    ]
}

/// All entries of the search path that a service runs with, in order and before duplicates are
/// left out.
pub open spec fn home_entries(home: HomePaths) -> Seq<Seq<char>> {
    Seq::new(home_suffixes().len(), |i: int| path::path_joined(home.home@, home_suffixes()[i]))
        + sorted(text::texts(home.config_nvm_bins@)) + sorted(text::texts(home.nvm_bins@))
}

/// The entries of the search path that a service runs with.
pub open spec fn runtime_entries(home: Option<HomePaths>, current: Option<Seq<char>>) -> Seq<
    Seq<char>,
> {
    let homes = match home {
        Some(home) => with_entries(Seq::empty(), home_entries(home)),
        None => Seq::empty(),
    };
    let systems = with_entries(homes, system_entries());
    match current {
        Some(path) => with_entries(systems, text::parts_of(path, ':')),
        None => systems,
    }
}

/// Adding several entries in two goes is adding them in one.
pub proof fn lemma_with_entries_concat(
    entries: Seq<Seq<char>>,
    first: Seq<Seq<char>>,
    second: Seq<Seq<char>>,
)
    ensures
        with_entries(entries, first + second) == with_entries(with_entries(entries, first), second),
    decreases second.len(),
{
    if second.len() == 0 {
        assert(first + second =~= first);
    } else {
        assert((first + second).drop_last() =~= first + second.drop_last());
        lemma_with_entries_concat(entries, first, second.drop_last());
    }
}

fn home_entry_list(home: &str) -> (out: Vec<String>)
    ensures
        text::texts(out@) == Seq::new(
            home_suffixes().len(),
            |i: int| path::path_joined(home@, home_suffixes()[i]),
        ),
{
    let mut out = no_texts();
    push_text(&mut out, join_path(home, ".bun/bin"));
    push_text(&mut out, join_path(home, ".cargo/bin"));
    push_text(&mut out, join_path(home, ".local/bin"));
    push_text(&mut out, join_path(home, ".deno/bin"));
    push_text(&mut out, join_path(home, ".pyenv/shims"));
    push_text(&mut out, join_path(home, ".asdf/shims"));
    push_text(&mut out, join_path(home, "Library/pnpm"));
    push_text(&mut out, join_path(home, "go/bin"));
    assert(text::texts(out@) =~= Seq::new(
        home_suffixes().len(),
        |i: int| path::path_joined(home@, home_suffixes()[i]),
    ));
    out
}

fn system_entry_list() -> (out: Vec<String>)
    ensures
        text::texts(out@) == system_entries(),
{
    let mut out = no_texts();
    push_text(&mut out, "/opt/homebrew/bin".to_owned());
    push_text(&mut out, "/opt/homebrew/sbin".to_owned());
    push_text(&mut out, "/usr/local/bin".to_owned());
    push_text(&mut out, "/usr/bin".to_owned());
    push_text(&mut out, "/bin".to_owned());
    push_text(&mut out, "/usr/sbin".to_owned());
    push_text(&mut out, "/sbin".to_owned());
    assert(text::texts(out@) =~= system_entries());
    out
}

/// The search path that a service runs with: developer tools below the home directory, those of the
/// system, and what is on the current search path.
pub fn daemon_runtime_path(home: &Option<HomePaths>, current: Option<&str>) -> (out: String)
    ensures
        out@ == text::joined(runtime_entries(*home, json::opt_text(current)), ":"@),
{
    let mut entries = no_texts();
    if let Some(home) = home {
        let tools = home_entry_list(home.home.as_str());
        push_path_entries(&mut entries, &tools);
        push_node_version_bins(&mut entries, &home.config_nvm_bins);
        push_node_version_bins(&mut entries, &home.nvm_bins);
        proof {
            let none = Seq::<Seq<char>>::empty();
            let tools_view = text::texts(tools@);
            let first = sorted(text::texts(home.config_nvm_bins@));
            let second = sorted(text::texts(home.nvm_bins@));
            lemma_with_entries_concat(none, tools_view, first);
            lemma_with_entries_concat(none, tools_view + first, second);
            assert(home_entries(*home) =~= tools_view + first + second);
        }
    }
    let systems = system_entry_list();
    push_path_entries(&mut entries, &systems);
    if let Some(current) = current {
        let parts = split_char(current, ':');
        push_path_entries(&mut entries, &parts);
    }
    join(&entries, ":")
}

/// No entry is blank and no entry occurs twice.
pub open spec fn clean_entries(entries: Seq<Seq<char>>) -> bool {
    &&& forall|i: int| 0 <= i < entries.len() ==> !text::blank(#[trigger] entries[i])
    &&& forall|i: int, j: int|
        0 <= i < j < entries.len() ==> #[trigger] entries[i] != #[trigger] entries[j]
}

/// Adding entries keeps a search path free of blanks and duplicates, keeps what is there in its
/// place, and leaves out nothing that is not blank.
pub proof fn adding_entries_keeps_order(entries: Seq<Seq<char>>, more: Seq<Seq<char>>)
    requires
        clean_entries(entries),
    ensures
        clean_entries(with_entries(entries, more)),
        entries.len() <= with_entries(entries, more).len(),
        with_entries(entries, more).take(entries.len() as int) == entries,
        forall|i: int|
            0 <= i < more.len() && !text::blank(#[trigger] more[i]) ==> with_entries(
                entries,
                more,
            ).contains(more[i]),
    decreases more.len(),
{
    if more.len() == 0 {
        assert(entries.take(entries.len() as int) =~= entries);
    } else {
        let front = more.drop_last();
        let before = with_entries(entries, front);
        let after = with_entries(entries, more);
        adding_entries_keeps_order(entries, front);
        if text::blank(more.last()) || before.contains(more.last()) {
        } else {
            assert(after.take(entries.len() as int) =~= before.take(entries.len() as int));
            assert forall|i: int, j: int| 0 <= i < j < after.len() implies #[trigger] after[i]
                != #[trigger] after[j] by {
                if j == before.len() {
                    assert(before.contains(before[i]));
                }
            }
            assert(after[before.len() as int] == more.last());
        }
        assert forall|i: int| 0 <= i < more.len() && !text::blank(#[trigger] more[i]) implies after.contains(
            more[i],
        ) by {
            if i < front.len() {
                assert(front[i] == more[i]);
                let k = choose|k: int| 0 <= k < before.len() && before[k] == more[i];
                assert(after[k] == more[i]);
            }
        }
    }
}

/// The search path of a service holds no blank entry and no entry twice.
pub proof fn runtime_path_is_clean(home: Option<HomePaths>, current: Option<Seq<char>>)
    ensures
        clean_entries(runtime_entries(home, current)),
{
    let none = Seq::<Seq<char>>::empty();
    let homes = match home {
        Some(home) => with_entries(none, home_entries(home)),
        None => none,
    };
    if home is Some {
        adding_entries_keeps_order(none, home_entries(home->0));
    }
    adding_entries_keeps_order(homes, system_entries());
    if current is Some {
        adding_entries_keeps_order(
            with_entries(homes, system_entries()),
            text::parts_of(current->0, ':'),
        );
    }
}

// ---------------------------------------------------------------------------------------------
// Escaping
// ---------------------------------------------------------------------------------------------

/// What stands for a character between quotes in a systemd unit.
pub open spec fn systemd_escaped(c: char) -> Seq<char> {
    if c == '\\' {
        "\\\\"@
    } else if c == '"' {
        "\\\""@
    } else if c == '%' {
        "%%"@
    } else {
        seq![c]
    }
}

/// What stands for a character in XML.
pub open spec fn xml_escaped(c: char) -> Seq<char> {
    if c == '&' {
        "&amp;"@
    } else if c == '<' {
        "&lt;"@
    } else if c == '>' {
        "&gt;"@
    } else if c == '"' {
        "&quot;"@
    } else if c == '\'' {
        "&apos;"@
    } else {
        seq![c]
    }
}

/// A text between quotes in a systemd unit.
pub open spec fn systemd_text(value: Seq<char>) -> Seq<char> {
    text::rewritten(value, |c: char| systemd_escaped(c))
}

/// A text in XML.
pub open spec fn xml_text(value: Seq<char>) -> Seq<char> {
    text::rewritten(value, |c: char| xml_escaped(c))
}

/// What a quoted text in a systemd unit stands for: a backslash gives the character behind it, and
/// two percent signs give one.
pub open spec fn systemd_read(value: Seq<char>) -> Seq<char>
    decreases value.len(),
{
    if value.len() == 0 {
        Seq::empty()
    } else if value.len() > 1 && (value[0] == '\\' || (value[0] == '%' && value[1] == '%')) {
        seq![value[1]] + systemd_read(value.skip(2))
    } else {
        seq![value[0]] + systemd_read(value.skip(1))
    }
}

/// What an XML text stands for: the five entities give their characters.
pub open spec fn xml_read(value: Seq<char>) -> Seq<char>
    decreases value.len(),
{
    proof {
        reveal_strlit("&amp;");
        reveal_strlit("&lt;");
        reveal_strlit("&gt;");
        reveal_strlit("&quot;");
        reveal_strlit("&apos;");
    }
    if value.len() == 0 {
        Seq::empty()
    } else if text::has_prefix(value, "&amp;"@) {
        seq!['&'] + xml_read(value.skip(5))
    } else if text::has_prefix(value, "&lt;"@) {
        seq!['<'] + xml_read(value.skip(4))
    } else if text::has_prefix(value, "&gt;"@) {
        seq!['>'] + xml_read(value.skip(4))
    } else if text::has_prefix(value, "&quot;"@) {
        seq!['"'] + xml_read(value.skip(6))
    } else if text::has_prefix(value, "&apos;"@) {
        seq!['\''] + xml_read(value.skip(6))
    } else {
        seq![value[0]] + xml_read(value.skip(1))
    }
}

/// What is escaped for a systemd unit is read back as it was.
pub proof fn systemd_text_is_read_back(value: Seq<char>)
    ensures
        systemd_read(systemd_text(value)) == value,
    decreases value.len(),
{
    let rewrite = |c: char| systemd_escaped(c);
    if value.len() > 0 {
        let c = value[0];
        let rest = value.skip(1);
        let tail = systemd_text(rest);
        text::lemma_rewritten_front(value, rewrite);
        systemd_text_is_read_back(rest);
        reveal_strlit("\\\\");
        reveal_strlit("\\\"");
        reveal_strlit("%%");
        assert(systemd_text(value) == systemd_escaped(c) + tail);
        assert((systemd_escaped(c) + tail).skip(systemd_escaped(c).len() as int) =~= tail);
        assert(systemd_read(systemd_escaped(c) + tail) == seq![c] + systemd_read(tail));
        assert(seq![c] + rest =~= value);
    }
}

/// What is escaped for XML is read back as it was.
pub proof fn xml_text_is_read_back(value: Seq<char>)
    ensures
        xml_read(xml_text(value)) == value,
    decreases value.len(),
{
    let rewrite = |c: char| xml_escaped(c);
    if value.len() > 0 {
        let c = value[0];
        let rest = value.skip(1);
        let tail = xml_text(rest);
        text::lemma_rewritten_front(value, rewrite);
        xml_text_is_read_back(rest);
        lemma_xml_step(c, tail);
        assert(xml_text(value) == xml_escaped(c) + tail);
        assert(seq![c] + rest =~= value);
    }
}

/// The text that stands for a character is read as that character.
proof fn lemma_xml_step(c: char, tail: Seq<char>)
    ensures
        xml_read(xml_escaped(c) + tail) == seq![c] + xml_read(tail),
{
    reveal_strlit("&amp;");
    reveal_strlit("&lt;");
    reveal_strlit("&gt;");
    reveal_strlit("&quot;");
    reveal_strlit("&apos;");
    let s = xml_escaped(c) + tail;
    let n = xml_escaped(c).len() as int;
    assert(s.skip(n) =~= tail);
    assert(s.take(n) =~= xml_escaped(c));
    if n == 1 {
        assert(s[0] == c);
    } else {
        assert(s[1] == xml_escaped(c)[1]);
        assert(s[2] == xml_escaped(c)[2]);
    }
}

/// Escapes a text for a quoted assignment in a systemd unit.
pub fn systemd_escape_env(value: &str) -> (out: String)
    ensures
        out@ == systemd_text(value@),
{
    let chars = chars_of(value);
    let mut out = String::new();
    let mut i: usize = 0;
    assert(value@.take(0) =~= Seq::<char>::empty());
    while i < chars.len()
        invariant
            chars@ == value@,
            i <= chars@.len(),
            out@ == systemd_text(value@.take(i as int)),
        decreases chars@.len() - i,
    {
        let c = chars[i];
        assert(value@.take(i + 1).drop_last() =~= value@.take(i as int));
        let ghost before = out@;
        if c == '\\' {
            out.append("\\\\");
        } else if c == '"' {
            out.append("\\\"");
        } else if c == '%' {
            out.append("%%");
        } else {
            out.push(c);
            assert(out@ =~= before + seq![c]);
        }
        i = i + 1;
    }
    assert(value@.take(i as int) =~= value@);
    out
}

/// Escapes a text for XML.
pub fn xml_escape(value: &str) -> (out: String)
    ensures
        out@ == xml_text(value@),
{
    let chars = chars_of(value);
    let mut out = String::new();
    let mut i: usize = 0;
    assert(value@.take(0) =~= Seq::<char>::empty());
    while i < chars.len()
        invariant
            chars@ == value@,
            i <= chars@.len(),
            out@ == xml_text(value@.take(i as int)),
        decreases chars@.len() - i,
    {
        let c = chars[i];
        assert(value@.take(i + 1).drop_last() =~= value@.take(i as int));
        let ghost before = out@;
        if c == '&' {
            out.append("&amp;");
        } else if c == '<' {
            out.append("&lt;");
        } else if c == '>' {
            out.append("&gt;");
        } else if c == '"' {
            out.append("&quot;");
        } else if c == '\'' {
            out.append("&apos;");
        } else {
            out.push(c);
            assert(out@ =~= before + seq![c]);
        }
        i = i + 1;
    }
    assert(value@.take(i as int) =~= value@);
    out
}

/// Text in XML holds no character that could end it or start a tag.
pub proof fn xml_text_is_plain(value: Seq<char>)
    ensures
        forall|i: int|
            0 <= i < xml_text(value).len() ==> (#[trigger] xml_text(value)[i]) != '<' && xml_text(
                value,
            )[i] != '>' && xml_text(value)[i] != '"' && xml_text(value)[i] != '\'',
    decreases value.len(),
{
    if value.len() > 0 {
        xml_text_is_plain(value.drop_last());
        reveal_strlit("&amp;");
        reveal_strlit("&lt;");
        reveal_strlit("&gt;");
        reveal_strlit("&quot;");
        reveal_strlit("&apos;");
        let front = xml_text(value.drop_last());
        let all = xml_text(value);
        let back = xml_escaped(value.last());
        assert(all == front + back);
        assert forall|i: int| 0 <= i < all.len() implies (#[trigger] all[i]) != '<' && all[i] != '>'
            && all[i] != '"' && all[i] != '\'' by {
            if i < front.len() {
                assert(all[i] == front[i]);
            } else {
                assert(all[i] == back[i - front.len()]);
            }
        }
    }
}

// ---------------------------------------------------------------------------------------------
// Service files
// ---------------------------------------------------------------------------------------------

/// The system that the service runs on.
#[derive(Debug, Clone, Copy, PartialEq, Eq, Structural)]
pub enum Platform {
    MacOs,
    Linux,
    Other,
}

/// The command that a service runs: a path where it is one, made absolute by the current directory,
/// and otherwise what is found on the search path.
pub open spec fn service_command(
    bridge_command: Seq<char>,
    current_dir: Option<Seq<char>>,
    found: Option<Seq<char>>,
) -> Seq<char> {
    let command = text::trimmed(bridge_command);
    if command.contains('/') {
        if command[0] == '/' {
            command
        } else {
            match current_dir {
                Some(dir) => path::path_joined(dir, command),
                None => command,
            }
        }
    } else {
        match found {
            Some(path) => path,
            None => command,
        }
    }
}

/// Resolves the command that a service runs. `current_dir` is the current directory and `found`
/// what a search of the search path gives for the command.
pub fn resolve_service_bridge_command(
    bridge_command: &str,
    current_dir: Option<&str>,
    found: Option<&str>,
) -> (out: String)
    ensures
        out@ == service_command(
            bridge_command@,
            json::opt_text(current_dir),
            json::opt_text(found),
        ),
{
    let command = trim(bridge_command);
    if find_char(command, '/').is_some() {
        if starts_with_char(command, '/') {
            return command.to_owned();
        }
        return match current_dir {
            Some(dir) => join_path(dir, command),
            None => command.to_owned(),
        };
    }
    match found {
        Some(path) => path.to_owned(),
        None => command.to_owned(),
    }
}

/// Why a service cannot be asked for, if at all: its label is looked at before its command.
pub open spec fn request_error(label: Seq<char>, bridge_command: Seq<char>) -> Option<ServiceError> {
    match label_error(label) {
        Some(error) => Some(error),
        None => if text::blank(bridge_command) {
            Some(ServiceError::EmptyBridgeCommand)
        } else {
            None
        },
    }
}

/// Checks what a service is asked for.
pub fn check_service_request(label: &str, bridge_command: &str) -> (out: Result<(), ServiceError>)
    ensures
        match out {
            Ok(_) => request_error(label@, bridge_command@) is None,
            Err(error) => request_error(label@, bridge_command@) == Some(error),
        },
{
    match validate_daemon_label(label) {
        Ok(_) => if is_blank(bridge_command) {
            Err(ServiceError::EmptyBridgeCommand)
        } else {
            Ok(())
        },
        Err(error) => Err(error),
    }
}

/// What a service and its files are called.
#[derive(Debug, PartialEq, Eq)]
pub struct ServiceNames {
    pub label: String,
    pub unit_name: String,
    pub service_path: String,
    pub stdout_log: String,
    pub stderr_log: String,
}

/// The unit of a label.
pub open spec fn unit_name_of(platform: Platform, label: Seq<char>) -> Seq<char> {
    if platform == Platform::Linux && !text::has_suffix(label, ".service"@) {
        label + ".service"@
    } else {
        label
    }
}

/// The file of a service.
pub open spec fn service_path_of(platform: Platform, home: Seq<char>, label: Seq<char>) -> Seq<
    char,
> {
    if platform == Platform::MacOs {
        path::path_joined(
            path::path_joined(path::path_joined(home, "Library"@), "LaunchAgents"@),
            label + ".plist"@,
        )
    } else {
        path::path_joined(
            path::path_joined(
                path::path_joined(path::path_joined(home, ".config"@), "systemd"@),
                "user"@,
            ),
            unit_name_of(platform, label),
        )
    }
}

/// Why a service cannot be named, if at all.
pub open spec fn naming_error(platform: Platform, label: Seq<char>, home: Option<Seq<char>>) -> Option<
    ServiceError,
> {
    if label_error(label) is Some {
        label_error(label)
    } else if platform == Platform::Other {
        Some(ServiceError::UnsupportedPlatform)
    } else if home is None {
        Some(ServiceError::NoHome)
    } else {
        None
    }
}

/// Names a service and its files.
pub fn service_names(
    platform: Platform,
    label: &str,
    home: Option<&str>,
    state_dir: &str,
) -> (out: Result<ServiceNames, ServiceError>)
    ensures
        match out {
            Ok(names) => {
                let kept = text::trimmed(label@);
                &&& naming_error(platform, label@, json::opt_text(home)) is None
                &&& names.label@ == kept
                &&& names.unit_name@ == unit_name_of(platform, kept)
                &&& names.service_path@ == service_path_of(platform, home->0@, kept)
                &&& names.stdout_log@ == path::path_joined(state_dir@, "daemon.out.log"@)
                &&& names.stderr_log@ == path::path_joined(state_dir@, "daemon.err.log"@)
            },
            Err(error) => naming_error(platform, label@, json::opt_text(home)) == Some(error),
        },
{
    let label = match validate_daemon_label(label) {
        Ok(label) => label,
        Err(error) => {
            return Err(error);
        },
    };
    if platform == Platform::Other {
        return Err(ServiceError::UnsupportedPlatform);
    }
    let home = match home {
        Some(home) => home,
        None => {
            return Err(ServiceError::NoHome);
        },
    };
    let unit_name = if platform == Platform::Linux && !ends_with(label, ".service") {
        cat2(label, ".service")
    } else {
        label.to_owned()
    };
    let service_path = if platform == Platform::MacOs {
        let library = join_path(home, "Library");
        let agents = join_path(library.as_str(), "LaunchAgents");
        let file = cat2(label, ".plist");
        join_path(agents.as_str(), file.as_str())
    } else {
        let config = join_path(home, ".config");
        let systemd = join_path(config.as_str(), "systemd");
        let user = join_path(systemd.as_str(), "user");
        join_path(user.as_str(), unit_name.as_str())
    };
    Ok(
        ServiceNames {
            label: label.to_owned(),
            unit_name,
            service_path,
            stdout_log: join_path(state_dir, "daemon.out.log"),
            stderr_log: join_path(state_dir, "daemon.err.log"),
        },
    )
}

/// Names of a service, quoted for a shell.
#[derive(Debug, PartialEq, Eq)]
pub struct QuotedNames {
    pub label: String,
    pub unit_name: String,
    pub service_path: String,
    pub bridge_command: String,
}

/// A service: its file, and the commands that control it.
#[derive(Debug, PartialEq, Eq)]
pub struct DaemonServiceSpec {
    pub service_path: String,
    pub stdout_log: String,
    pub stderr_log: String,
    pub unit_name: String,
    pub contents: String,
    pub install_command: String,
    pub uninstall_command: String,
    pub start_command: String,
    pub stop_command: String,
    pub status_command: String,
}

/// The file of a launchd agent.
pub open spec fn plist_text(
    names: ServiceNames,
    bridge_command: Seq<char>,
    runtime_path: Seq<char>,
) -> Seq<char> {
    "<?xml version=\"1.0\" encoding=\"UTF-8\"?>\n<!DOCTYPE plist PUBLIC \"-//Apple//DTD PLIST 1.0//EN\" \"http://www.apple.com/DTDs/PropertyList-1.0.dtd\">\n<plist version=\"1.0\">\n<dict>\n    <key>Label</key>\n    <string>"@
        + xml_text(names.label@)
        + "</string>\n    <key>ProgramArguments</key>\n    <array>\n        <string>"@ + xml_text(
        bridge_command,
    )
        + "</string>\n        <string>daemon</string>\n        <string>run</string>\n    </array>\n    <key>EnvironmentVariables</key>\n    <dict>\n        <key>PATH</key>\n        <string>"@
        + xml_text(runtime_path)
        + "</string>\n    </dict>\n    <key>RunAtLoad</key>\n    <true/>\n    <key>KeepAlive</key>\n    <true/>\n    <key>StandardOutPath</key>\n    <string>"@
        + xml_text(names.stdout_log@)
        + "</string>\n    <key>StandardErrorPath</key>\n    <string>"@ + xml_text(names.stderr_log@)
        + "</string>\n</dict>\n</plist>\n"@
}

/// The file of a systemd unit.
pub open spec fn unit_text(
    names: ServiceNames,
    quoted_command: Seq<char>,
    runtime_path: Seq<char>,
) -> Seq<char> {
    "[Unit]\nDescription=Codex Telegram Bridge notification daemon\n\n[Service]\nType=simple\nEnvironment=\"PATH="@
        + systemd_text(runtime_path) + "\"\nExecStart="@ + quoted_command
        + " daemon run\nRestart=always\nRestartSec=2\nStandardOutput=append:"@ + names.stdout_log@
        + "\nStandardError=append:"@ + names.stderr_log@
        + "\n\n[Install]\nWantedBy=default.target\n"@
}

/// A service is described by its names.
pub open spec fn describes(
    service: DaemonServiceSpec,
    platform: Platform,
    names: ServiceNames,
    quoted: QuotedNames,
    bridge_command: Seq<char>,
    runtime_path: Seq<char>,
) -> bool {
    let bootstrap = "launchctl bootstrap gui/$(id -u) "@ + quoted.service_path@;
    let kickstart = "launchctl kickstart -k gui/$(id -u)/"@ + quoted.label@;
    let bootout = "launchctl bootout gui/$(id -u)/"@ + quoted.label@;
    let enable = "systemctl --user daemon-reload && systemctl --user enable --now "@
        + quoted.unit_name@;
    &&& service.service_path@ == names.service_path@
    &&& service.stdout_log@ == names.stdout_log@
    &&& service.stderr_log@ == names.stderr_log@
    &&& service.unit_name@ == names.unit_name@
    &&& if platform == Platform::MacOs {
        &&& service.contents@ == plist_text(names, bridge_command, runtime_path)
        &&& service.install_command@ == bootstrap
        &&& service.uninstall_command@ == bootout + " 2>/dev/null || true"@
        &&& service.start_command@ == bootstrap + " 2>/dev/null || "@ + kickstart
        &&& service.stop_command@ == bootout
        &&& service.status_command@ == "launchctl print gui/$(id -u)/"@ + quoted.label@
    } else {
        &&& service.contents@ == unit_text(names, quoted.bridge_command@, runtime_path)
        &&& service.install_command@ == enable
        &&& service.uninstall_command@ == "systemctl --user disable --now "@ + quoted.unit_name@
            + " 2>/dev/null || true"@
        &&& service.start_command@ == enable
        &&& service.stop_command@ == "systemctl --user stop "@ + quoted.unit_name@
        &&& service.status_command@ == "systemctl --user status "@ + quoted.unit_name@
    }
}

fn plist_contents(
    names: &ServiceNames,
    bridge_command: &str,
    runtime_path: &str,
) -> (out: String)
    ensures
        out@ == plist_text(*names, bridge_command@, runtime_path@),
{
    let label = xml_escape(names.label.as_str());
    let command = xml_escape(bridge_command);
    let search = xml_escape(runtime_path);
    let stdout_log = xml_escape(names.stdout_log.as_str());
    let stderr_log = xml_escape(names.stderr_log.as_str());
    let mut out = cat4(
        "<?xml version=\"1.0\" encoding=\"UTF-8\"?>\n<!DOCTYPE plist PUBLIC \"-//Apple//DTD PLIST 1.0//EN\" \"http://www.apple.com/DTDs/PropertyList-1.0.dtd\">\n<plist version=\"1.0\">\n<dict>\n    <key>Label</key>\n    <string>",
        label.as_str(),
        "</string>\n    <key>ProgramArguments</key>\n    <array>\n        <string>",
        command.as_str(),
    );
    out.append(
        "</string>\n        <string>daemon</string>\n        <string>run</string>\n    </array>\n    <key>EnvironmentVariables</key>\n    <dict>\n        <key>PATH</key>\n        <string>",
    );
    out.append(search.as_str());
    out.append(
        "</string>\n    </dict>\n    <key>RunAtLoad</key>\n    <true/>\n    <key>KeepAlive</key>\n    <true/>\n    <key>StandardOutPath</key>\n    <string>",
    );
    out.append(stdout_log.as_str());
    out.append("</string>\n    <key>StandardErrorPath</key>\n    <string>");
    out.append(stderr_log.as_str());
    out.append("</string>\n</dict>\n</plist>\n");
    out
}

fn unit_contents(
    names: &ServiceNames,
    quoted_command: &str,
    runtime_path: &str,
) -> (out: String)
    ensures
        out@ == unit_text(*names, quoted_command@, runtime_path@),
{
    let search = systemd_escape_env(runtime_path);
    let mut out = cat4(
        "[Unit]\nDescription=Codex Telegram Bridge notification daemon\n\n[Service]\nType=simple\nEnvironment=\"PATH=",
        search.as_str(),
        "\"\nExecStart=",
        quoted_command,
    );
    out.append(" daemon run\nRestart=always\nRestartSec=2\nStandardOutput=append:");
    out.append(names.stdout_log.as_str());
    out.append("\nStandardError=append:");
    out.append(names.stderr_log.as_str());
    out.append("\n\n[Install]\nWantedBy=default.target\n");
    out
}

/// Describes a service. `bridge_command` is the command that it runs and `runtime_path` the search
/// path that it runs with.
pub fn daemon_service_spec(
    platform: Platform,
    names: &ServiceNames,
    quoted: &QuotedNames,
    bridge_command: &str,
    runtime_path: &str,
) -> (out: DaemonServiceSpec)
    requires
        platform != Platform::Other,
    ensures
        describes(out, platform, *names, *quoted, bridge_command@, runtime_path@),
{
    if platform == Platform::MacOs {
        let label = quoted.label.as_str();
        let bootstrap = cat2("launchctl bootstrap gui/$(id -u) ", quoted.service_path.as_str());
        let kickstart = cat2("launchctl kickstart -k gui/$(id -u)/", label);
        let bootout = cat2("launchctl bootout gui/$(id -u)/", label);
        let uninstall_command = cat2(bootout.as_str(), " 2>/dev/null || true");
        let start_command = cat3(bootstrap.as_str(), " 2>/dev/null || ", kickstart.as_str());
        DaemonServiceSpec {
            service_path: names.service_path.clone(),
            stdout_log: names.stdout_log.clone(),
            stderr_log: names.stderr_log.clone(),
            unit_name: names.unit_name.clone(),
            contents: plist_contents(names, bridge_command, runtime_path),
            install_command: bootstrap,
            uninstall_command,
            start_command,
            stop_command: bootout,
            status_command: cat2("launchctl print gui/$(id -u)/", label),
        }
    } else {
        let unit = quoted.unit_name.as_str();
        DaemonServiceSpec {
            service_path: names.service_path.clone(),
            stdout_log: names.stdout_log.clone(),
            stderr_log: names.stderr_log.clone(),
            unit_name: names.unit_name.clone(),
            contents: unit_contents(names, quoted.bridge_command.as_str(), runtime_path),
            install_command: cat2(
                "systemctl --user daemon-reload && systemctl --user enable --now ",
                unit,
            ),
            uninstall_command: cat3(
                "systemctl --user disable --now ",
                unit,
                " 2>/dev/null || true",
            ),
            start_command: cat2(
                "systemctl --user daemon-reload && systemctl --user enable --now ",
                unit,
            ),
            stop_command: cat2("systemctl --user stop ", unit),
            status_command: cat2("systemctl --user status ", unit),
        }
    }
}

// ---------------------------------------------------------------------------------------------
// Reports
// ---------------------------------------------------------------------------------------------

/// The files that a service logs to.
pub open spec fn logs_value(service: DaemonServiceSpec) -> JsonView {
    json::members().text("stdout"@, service.stdout_log@).text("stderr"@, service.stderr_log@).object()
}

fn logs_json(service: &DaemonServiceSpec) -> (out: Json)
    ensures
        out@ == logs_value(*service),
{
    Fields::new().text("stdout", service.stdout_log.as_str()).text(
        "stderr",
        service.stderr_log.as_str(),
    ).object()
}

/// The report of an installation; a dry run shows the file.
pub fn install_report(
    service: &DaemonServiceSpec,
    dry_run: bool,
    run_command: &str,
) -> (out: Json)
    ensures
        out@ == json::members().flag("ok"@, true).text("action"@, "daemon_install"@).flag(
            "dryRun"@,
            dry_run,
        ).text("label"@, service.unit_name@).text("servicePath"@, service.service_path@).text(
            "runCommand"@,
            run_command@,
        ).text("installCommand"@, service.install_command@).text(
            "startCommand"@,
            service.start_command@,
        ).text("stopCommand"@, service.stop_command@).text(
            "statusCommand"@,
            service.status_command@,
        ).with("logs"@, logs_value(*service)).with(
            "contents"@,
            if dry_run {
                JsonView::Str(service.contents@)
            } else {
                JsonView::Null
            },
        ).object(),
{
    let contents = if dry_run {
        Json::text(service.contents.as_str())
    } else {
        Json::Null
    };
    Fields::new().flag("ok", true).text("action", "daemon_install").flag("dryRun", dry_run).text(
        "label",
        service.unit_name.as_str(),
    ).text("servicePath", service.service_path.as_str()).text("runCommand", run_command).text(
        "installCommand",
        service.install_command.as_str(),
    ).text("startCommand", service.start_command.as_str()).text(
        "stopCommand",
        service.stop_command.as_str(),
    ).text("statusCommand", service.status_command.as_str()).with("logs", logs_json(service)).with(
        "contents",
        contents,
    ).object()
}

/// The report of a removal; `output` is that of the command, which a dry run does not run.
pub fn uninstall_report(
    service: &DaemonServiceSpec,
    dry_run: bool,
    output: Option<&Json>,
) -> (out: Json)
    ensures
        out@ == json::members().flag("ok"@, true).text("action"@, "daemon_uninstall"@).flag(
            "dryRun"@,
            dry_run,
        ).text("label"@, service.unit_name@).text("servicePath"@, service.service_path@).text(
            "uninstallCommand"@,
            service.uninstall_command@,
        ).with("output"@, json::or_null(json::opt_view(output))).object(),
{
    Fields::new().flag("ok", true).text("action", "daemon_uninstall").flag("dryRun", dry_run).text(
        "label",
        service.unit_name.as_str(),
    ).text("servicePath", service.service_path.as_str()).text(
        "uninstallCommand",
        service.uninstall_command.as_str(),
    ).with("output", Json::or_null(output)).object()
}

/// The report of a start or a stop.
pub open spec fn control_report(
    action: Seq<char>,
    unit_name: Seq<char>,
    command: Seq<char>,
    dry_run: bool,
    output: Option<JsonView>,
) -> JsonView {
    json::members().flag("ok"@, true).text("action"@, action).flag("dryRun"@, dry_run).text(
        "label"@,
        unit_name,
    ).text("command"@, command).with("output"@, json::or_null(output)).object()
}

/// The report of a start.
pub fn start_report(
    service: &DaemonServiceSpec,
    dry_run: bool,
    output: Option<&Json>,
) -> (out: Json)
    ensures
        out@ == control_report(
            "daemon_start"@,
            service.unit_name@,
            service.start_command@,
            dry_run,
            json::opt_view(output),
        ),
{
    Fields::new().flag("ok", true).text("action", "daemon_start").flag("dryRun", dry_run).text(
        "label",
        service.unit_name.as_str(),
    ).text("command", service.start_command.as_str()).with("output", Json::or_null(output)).object()
}

/// The report of a stop.
pub fn stop_report(service: &DaemonServiceSpec, dry_run: bool, output: Option<&Json>) -> (out: Json)
    ensures
        out@ == control_report(
            "daemon_stop"@,
            service.unit_name@,
            service.stop_command@,
            dry_run,
            json::opt_view(output),
        ),
{
    Fields::new().flag("ok", true).text("action", "daemon_stop").flag("dryRun", dry_run).text(
        "label",
        service.unit_name.as_str(),
    ).text("command", service.stop_command.as_str()).with("output", Json::or_null(output)).object()
}

/// The report of where a service logs to. The paths for the command are quoted for a shell.
pub fn logs_report(
    service: &DaemonServiceSpec,
    quoted_stdout: &str,
    quoted_stderr: &str,
) -> (out: Json)
    ensures
        out@ == json::members().flag("ok"@, true).text("action"@, "daemon_logs"@).text(
            "label"@,
            service.unit_name@,
        ).text("stdout"@, service.stdout_log@).text("stderr"@, service.stderr_log@).text(
            "tailCommand"@,
            "tail -f "@ + quoted_stdout@ + " "@ + quoted_stderr@,
        ).object(),
{
    let tail = cat4("tail -f ", quoted_stdout, " ", quoted_stderr);
    Fields::new().flag("ok", true).text("action", "daemon_logs").text(
        "label",
        service.unit_name.as_str(),
    ).text("stdout", service.stdout_log.as_str()).text("stderr", service.stderr_log.as_str()).text(
        "tailCommand",
        tail.as_str(),
    ).object()
}

// ---------------------------------------------------------------------------------------------
// What the service manager says
// ---------------------------------------------------------------------------------------------

/// What a command printed, and how it ended.
pub fn shell_output(
    status: Option<i64>,
    success: bool,
    stdout: &str,
    stderr: &str,
) -> (out: Json)
    ensures
        out@ == json::members().with(
            "status"@,
            json::int_or_null(json::opt_signed(status)),
        ).flag("success"@, success).text("stdout"@, text::trimmed(stdout@)).text(
            "stderr"@,
            text::trimmed(stderr@),
        ).object(),
{
    Fields::new().with("status", Json::opt_i64(status)).flag("success", success).text(
        "stdout",
        trim(stdout),
    ).text("stderr", trim(stderr)).object()
}

/// How a command ended, without what it printed: that can hold credentials.
pub open spec fn status_summary(output: JsonView) -> JsonView {
    json::members().with("status"@, json::or_null(output.get("status"@))).with(
        "success"@,
        match output.get("success"@) {
            Some(success) => success,
            None => JsonView::Bool(false),
        },
    ).object()
}

/// How a command ended, without what it printed.
pub fn command_status_summary(output: &Json) -> (out: Json)
    ensures
        out@ == status_summary(output@),
{
    let success = match output.get("success") {
        Some(success) => success.copy(),
        None => Json::Bool(false),
    };
    Fields::new().with("status", Json::or_null(output.get("status"))).with(
        "success",
        success,
    ).object()
}

/// A text of a command's output, empty where it is missing.
pub open spec fn printed(output: JsonView, field: Seq<char>) -> Seq<char> {
    match json::text_at(output.get(field)) {
        Some(s) => s,
        None => Seq::empty(),
    }
}

fn read_printed<'a>(output: &'a Json, field: &str) -> (out: &'a str)
    ensures
        out@ == printed(output@, field@),
{
    match output.str_at(field) {
        Some(s) => s,
        None => {
            proof {
                reveal_strlit("");
            }
            assert(""@ =~= Seq::<char>::empty());
            ""
        },
    }
}

/// The command succeeded.
pub open spec fn succeeded(output: JsonView) -> bool {
    json::truth_at(output.get("success"@)) == Some(true)
}

fn has_succeeded(output: &Json) -> (yes: bool)
    ensures
        yes == succeeded(output@),
{
    match output.bool_at("success") {
        Some(b) => b,
        None => false,
    }
}

/// The state that the first line of the form `state = ...` names.
pub open spec fn state_line(lines: Seq<Seq<char>>) -> Option<Seq<char>>
    decreases lines.len(),
{
    if lines.len() == 0 {
        None
    } else {
        let line = text::trimmed(lines[0]);
        if text::has_prefix(line, "state = "@) {
            Some(text::trimmed(line.skip("state = "@.len() as int)))
        } else {
            state_line(lines.skip(1))
        }
    }
}

fn find_state_line(stdout: &str) -> (out: Option<String>)
    ensures
        json::opt_string(out) == state_line(text::lines_of(stdout@)),
{
    let lines = split_lines(stdout);
    let ghost all = text::texts(lines@);
    let mut i: usize = 0;
    assert(all.skip(0) =~= all);
    while i < lines.len()
        invariant
            all == text::texts(lines@),
            all == text::lines_of(stdout@),
            i <= lines@.len(),
            state_line(all.skip(i as int)) == state_line(all),
        decreases lines@.len() - i,
    {
        assert(all.skip(i as int)[0] == all[i as int]);
        assert(all.skip(i as int).skip(1) =~= all.skip(i + 1));
        if let Some(rest) = strip_prefix(trim(lines[i].as_str()), "state = ") {
            return Some(trim(rest).to_owned());
        }
        i = i + 1;
    }
    None
}

/// What is known of a running service.
pub open spec fn runtime_value(
    loaded: bool,
    running: bool,
    state: Option<Seq<char>>,
    raw: JsonView,
) -> JsonView {
    json::members().flag("loaded"@, loaded).flag("running"@, running).with(
        "state"@,
        json::text_or_null(state),
    ).with("raw"@, raw).object()
}

fn runtime_json(loaded: bool, running: bool, state: &Option<String>, raw: Json) -> (out: Json)
    ensures
        out@ == runtime_value(loaded, running, json::opt_string(*state), raw@),
{
    Fields::new().flag("loaded", loaded).flag("running", running).with(
        "state",
        Json::opt_string(state),
    ).with("raw", raw).object()
}

/// The error says that launchd does not know the service.
pub open spec fn service_unknown(stderr: Seq<char>) -> bool {
    ||| text::occurs_in("Could not find service"@, stderr)
    ||| text::occurs_in("could not find service"@, stderr)
    ||| text::occurs_in("service not found"@, stderr)
}

/// What launchd says of a service.
pub open spec fn macos_runtime(output: JsonView) -> JsonView {
    let state = state_line(text::lines_of(printed(output, "stdout"@)));
    if succeeded(output) {
        runtime_value(true, state == Some("running"@), state, status_summary(output))
    } else {
        runtime_value(
            !service_unknown(printed(output, "stderr"@)),
            false,
            None,
            status_summary(output),
        )
    }
}

/// What launchd says of a service. What the command printed is not part of it.
pub fn macos_service_runtime(output: &Json) -> (out: Json)
    ensures
        out@ == macos_runtime(output@),
{
    let raw = command_status_summary(output);
    if !has_succeeded(output) {
        let stderr = read_printed(output, "stderr");
        let unknown = contains_text(stderr, "Could not find service") || contains_text(
            stderr,
            "could not find service",
        ) || contains_text(stderr, "service not found");
        return runtime_json(!unknown, false, &None, raw);
    }
    let state = find_state_line(read_printed(output, "stdout"));
    let running = match &state {
        Some(s) => same_text(s.as_str(), "running"),
        None => false,
    };
    runtime_json(true, running, &state, raw)
}

/// The command that asks systemd whether a unit is active.
pub fn is_active_command(quoted_unit: &str) -> (out: String)
    ensures
        out@ == "systemctl --user is-active "@ + quoted_unit@,
{
    cat2("systemctl --user is-active ", quoted_unit)
}

/// What systemd says of a unit.
pub open spec fn linux_runtime(status_output: JsonView, active_output: JsonView) -> JsonView {
    let active = text::trimmed(printed(active_output, "stdout"@));
    runtime_value(
        succeeded(status_output) || active != "inactive"@,
        active == "active"@,
        if active.len() == 0 {
            None
        } else {
            Some(active)
        },
        json::members().with("status"@, status_summary(status_output)).with(
            "isActive"@,
            status_summary(active_output),
        ).object(),
    )
}

/// What systemd says of a unit: `status_output` is that of the status command and `active_output`
/// whether it is active.
pub fn linux_service_runtime(status_output: &Json, active_output: &Json) -> (out: Json)
    ensures
        out@ == linux_runtime(status_output@, active_output@),
{
    let active = trim(read_printed(active_output, "stdout"));
    let loaded = has_succeeded(status_output) || !same_text(active, "inactive");
    let state = if active.unicode_len() == 0 {
        None
    } else {
        Some(active.to_owned())
    };
    let raw = Fields::new().with("status", command_status_summary(status_output)).with(
        "isActive",
        command_status_summary(active_output),
    ).object();
    runtime_json(loaded, same_text(active, "active"), &state, raw)
}

/// What is known of a service whose file is missing, or on another system.
pub open spec fn absent_runtime() -> JsonView {
    runtime_value(false, false, None, JsonView::Null)
}

/// What is known of a service whose file is missing, or on another system.
pub fn absent_service_runtime() -> (out: Json)
    ensures
        out@ == absent_runtime(),
{
    runtime_json(false, false, &None, Json::Null)
}

/// How the state of a service is found out.
#[derive(Debug, Clone, Copy, PartialEq, Eq, Structural)]
pub enum RuntimeQuery {
    /// There is nothing to ask.
    Absent,
    Launchd,
    Systemd,
}

/// How the state of a service is found out: only an installed one is asked for.
pub fn service_runtime_query(platform: Platform, installed: bool) -> (out: RuntimeQuery)
    ensures
        out == if !installed || platform == Platform::Other {
            RuntimeQuery::Absent
        } else if platform == Platform::MacOs {
            RuntimeQuery::Launchd
        } else {
            RuntimeQuery::Systemd
        },
{
    if !installed {
        return RuntimeQuery::Absent;
    }
    match platform {
        Platform::MacOs => RuntimeQuery::Launchd,
        Platform::Linux => RuntimeQuery::Systemd,
        Platform::Other => RuntimeQuery::Absent,
    }
}

/// What launchd is said to say does not depend on what the command printed but for the line with
/// the state: outputs that end alike and name the same state are reported alike.
pub proof fn service_output_stays_private(first: JsonView, second: JsonView)
    requires
        first.get("status"@) == second.get("status"@),
        first.get("success"@) == second.get("success"@),
        state_line(text::lines_of(printed(first, "stdout"@))) == state_line(
            text::lines_of(printed(second, "stdout"@)),
        ),
        service_unknown(printed(first, "stderr"@)) == service_unknown(printed(second, "stderr"@)),
    ensures
        macos_runtime(first) == macos_runtime(second),
{
}

/// The service is configured, installed and running.
pub open spec fn service_healthy(config_exists: bool, installed: bool, runtime: JsonView) -> bool {
    config_exists && installed && json::truth_at(runtime.get("running"@)) == Some(true)
}

/// The report of a service's state.
pub open spec fn status_report(
    service: DaemonServiceSpec,
    config_path: Seq<char>,
    config_exists: bool,
    installed: bool,
    runtime: JsonView,
) -> JsonView {
    let healthy = service_healthy(config_exists, installed, runtime);
    json::members().flag("ok"@, true).text("action"@, "daemon_status"@).text(
        "label"@,
        service.unit_name@,
    ).flag("healthy"@, healthy).text("configPath"@, config_path).flag(
        "configExists"@,
        config_exists,
    ).text("servicePath"@, service.service_path@).flag("serviceExists"@, installed).with(
        "serviceStatus"@,
        runtime,
    ).with(
        "nextStep"@,
        if healthy {
            JsonView::Null
        } else {
            JsonView::Str(
                "Run `codex-telegram-bridge daemon start` to restore background Telegram delivery."@,
            )
        },
    ).text("statusCommand"@, service.status_command@).with("logs"@, logs_value(service)).object()
}

/// The report of a service's state.
pub fn daemon_service_status(
    service: &DaemonServiceSpec,
    config_path: &str,
    config_exists: bool,
    installed: bool,
    runtime: Json,
) -> (out: Json)
    ensures
        out@ == status_report(*service, config_path@, config_exists, installed, runtime@),
{
    let running = match runtime.bool_at("running") {
        Some(b) => b,
        None => false,
    };
    let healthy = config_exists && installed && running;
    let next_step = if healthy {
        Json::Null
    } else {
        Json::text(
            "Run `codex-telegram-bridge daemon start` to restore background Telegram delivery.",
        )
    };
    Fields::new().flag("ok", true).text("action", "daemon_status").text(
        "label",
        service.unit_name.as_str(),
    ).flag("healthy", healthy).text("configPath", config_path).flag(
        "configExists",
        config_exists,
    ).text("servicePath", service.service_path.as_str()).flag("serviceExists", installed).with(
        "serviceStatus",
        runtime,
    ).with("nextStep", next_step).text("statusCommand", service.status_command.as_str()).with(
        "logs",
        logs_json(service),
    ).object()
}

} // verus!
