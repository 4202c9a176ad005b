use vstd::prelude::*;
use crate::config::{Config, SearchMode};
use crate::counter::{EntryCounter, Tally};
use crate::scan::{dir_lines, iteration_error, scan_listing, scan_path};
use crate::search::{search_listing, search_path};
use crate::text::{emit, int_to_formatted_slice, texts, thousands};
use crate::tree::{listing_weight, weight_within, Listing};

verus! {

/// What a scan or a search prints: lines for standard output and error
/// reports, in order.
pub struct Report {
    pub lines: Vec<String>,
    pub errors: Vec<String>,
}

/// `<N what>`.
pub open spec fn count_line(n: nat, what: Seq<char>) -> Seq<char> {
    "<"@ + thousands(n) + what
}

/// A block of counts under a title, followed by a blank line.
pub open spec fn count_block(title: Seq<char>, t: Tally) -> Seq<Seq<char>> {
    seq![
        title,
        count_line(t.files, " files>"@),
        count_line(t.symlinks, " symlinks>"@),
        count_line(t.special, " special files>"@),
        count_line(t.dirs, " subdirectories>"@),
        count_line(t.sum(), " total entries>"@),
        Seq::empty(),
    ]
}

/// What a scan of the directory at `path` with listing `l` prints: its
/// lines, a blank line, the counts of the directory's own entries, and with
/// recursion the counts of everything scanned. The second part is the
/// error reports; where the directory cannot be read, they are all there is,
/// and only where errors are to be shown.
pub open spec fn scan_report(cfg: Config, path: Seq<char>, l: Listing) -> (Seq<Seq<char>>, Seq<Seq<char>>) {
    match scan_listing(cfg, 0, l) {
        Err(m) => (
            Seq::empty(),
            if cfg.errors {
                seq![iteration_error(path, m)]
            } else {
                Seq::empty()
            },
        ),
        Ok(f) => (
            dir_lines(cfg, 0, f) + seq![Seq::empty()] + count_block(quoted("Summary of "@, path), f.here)
                + (if cfg.recursive {
                count_block("Including subdirectories"@, f.here.add(f.below))
            } else {
                Seq::empty()
            }),
            f.errors,
        ),
    }
}

/// What a search of the directory at `path` prints: the entries found, a
/// blank line, the counts of the entries found and of all entries searched;
/// where the directory cannot be read, only an error report, and that only
/// where errors are to be shown.
pub open spec fn search_report(
    cfg: Config,
    mode: SearchMode,
    pattern: Seq<char>,
    path: Seq<char>,
    l: Listing,
) -> (Seq<Seq<char>>, Seq<Seq<char>>) {
    match search_listing(cfg, mode, pattern, 0, l) {
        Err(m) => (
            Seq::empty(),
            if cfg.errors {
                seq![iteration_error(path, m)]
            } else {
                Seq::empty()
            },
        ),
        Ok(f) => (
            f.lines + seq![Seq::empty()] + count_block("Summary of matching entries"@, f.found)
                + count_block(quoted("Summary of traversal of "@, path), f.here.add(f.below)),
            f.errors,
        ),
    }
}

fn count_text(n: u64, what: &str) -> (r: String)
    ensures
        r@ == count_line(n as nat, what@),
{
    let mut s = String::from_str("<");
    let t = int_to_formatted_slice(n);
    s.append(t.as_str());
    s.append(what);
    s
}

fn push_counts(title: String, c: &EntryCounter, lines: &mut Vec<String>)
    requires
        c@.sum() <= u64::MAX,
    ensures
        texts(final(lines)@) == texts(old(lines)@) + count_block(title@, c@),
{
    let ghost lines0 = texts(lines@);
    emit(lines, title);
    emit(lines, count_text(c.get_file_cnt(), " files>"));
    emit(lines, count_text(c.get_symlink_cnt(), " symlinks>"));
    emit(lines, count_text(c.get_special_cnt(), " special files>"));
    emit(lines, count_text(c.get_dir_cnt(), " subdirectories>"));
    emit(lines, count_text(c.get_entry_cnt(), " total entries>"));
    emit(lines, String::new());
    assert(texts(lines@) =~= lines0 + count_block(title@, c@));
}

/// `path` in double quotes after `head`.
pub open spec fn quoted(head: Seq<char>, path: Seq<char>) -> Seq<char> {
    head + "\""@ + path + "\""@
}

fn quoted_title(head: &str, path: &str) -> (r: String)
    ensures
        r@ == quoted(head@, path@),
{
    let mut s = String::from_str(head);
    s.append("\"");
    s.append(path);
    s.append("\"");
    s
}

fn finish_scan(
    cfg: &Config,
    path: &str,
    init: &EntryCounter,
    full: &EntryCounter,
    lines: &mut Vec<String>,
    Ghost(here): Ghost<Tally>,
    Ghost(below): Ghost<Tally>,
)
    requires
        init@ == here,
        full@ == here.add(below),
        here.sum() + below.sum() <= u64::MAX,
    ensures
        texts(final(lines)@) == texts(old(lines)@) + seq![Seq::<char>::empty()] + count_block(
            quoted("Summary of "@, path@),
            here,
        ) + (if cfg.recursive {
            count_block("Including subdirectories"@, here.add(below))
        } else {
            Seq::empty()
        }),
{
    let ghost lines0 = texts(lines@);
    emit(lines, String::new());
    push_counts(quoted_title("Summary of ", path), init, lines);
    if cfg.recursive {
        push_counts(String::from_str("Including subdirectories"), full, lines);
    }
    assert(texts(lines@) =~= lines0 + seq![Seq::<char>::empty()] + count_block(
        quoted("Summary of "@, path@),
        here,
    ) + (if cfg.recursive {
        count_block("Including subdirectories"@, here.add(below))
    } else {
        Seq::empty()
    }));
}

fn finish_search(
    path: &str,
    found: &EntryCounter,
    full: &EntryCounter,
    lines: &mut Vec<String>,
    Ghost(here): Ghost<Tally>,
    Ghost(below): Ghost<Tally>,
)
    requires
        found@.sum() <= u64::MAX,
        full@ == here.add(below),
        here.sum() + below.sum() <= u64::MAX,
    ensures
        texts(final(lines)@) == texts(old(lines)@) + seq![Seq::<char>::empty()] + count_block(
            "Summary of matching entries"@,
            found@,
        ) + count_block(quoted("Summary of traversal of "@, path@), here.add(below)),
{
    let ghost lines0 = texts(lines@);
    emit(lines, String::new());
    push_counts(String::from_str("Summary of matching entries"), found, lines);
    push_counts(quoted_title("Summary of traversal of ", path), full, lines);
    assert(texts(lines@) =~= lines0 + seq![Seq::<char>::empty()] + count_block(
        "Summary of matching entries"@,
        found@,
    ) + count_block(quoted("Summary of traversal of "@, path@), here.add(below)));
}

/// Scans the directory at `path`, whose listing is `l`, and returns what is
/// printed; `None` where the tree is too large for the tallies (its weight
/// exceeds `u64::MAX`).
pub fn scan_path_init(cfg: &Config, path: &str, l: &Listing) -> (r: Option<Report>)
    ensures
        r is None <==> listing_weight(*l) > u64::MAX,
        r matches Some(rep) ==> (texts(rep.lines@), texts(rep.errors@)) == scan_report(*cfg, path@, *l),
{
    if weight_within(l, u64::MAX).is_none() {
        return None;
    }
    let mut init = EntryCounter::new();
    let mut full = EntryCounter::new();
    let mut lines: Vec<String> = Vec::new();
    let mut errors: Vec<String> = Vec::new();
    proof {
        assert(texts(lines@) =~= Seq::<Seq<char>>::empty());
        assert(texts(errors@) =~= Seq::<Seq<char>>::empty());
    }
    match scan_path(&mut init, &mut full, cfg, 0, l, &mut lines, &mut errors) {
        Some(msg) => {
            let mut errs: Vec<String> = Vec::new();
            if cfg.errors {
                let mut text = String::from_str("Error while iterating over \"");
                text.append(path);
                text.append("\"\n");
                text.append(msg.as_str());
                emit(&mut errs, text);
            }
            proof {
                assert(texts(errs@) =~= scan_report(*cfg, path@, *l).1);
                assert(texts(lines@) =~= Seq::<Seq<char>>::empty());
            }
            Some(Report { lines, errors: errs })
        },
        None => {
            let ghost f = scan_listing(*cfg, 0, *l)->Ok_0;
            proof {
                crate::scan::lemma_scan_bounded(*cfg, 0, crate::tree::entries_of(*l));
            }
            finish_scan(cfg, path, &init, &full, &mut lines, Ghost(f.here), Ghost(f.below));
            Some(Report { lines, errors })
        },
    }
}

/// Searches the directory at `path`, whose listing is `l`, for entries
/// whose name matches `pattern`, and returns what is printed; `None` where
/// the tree is too large for the tallies.
pub fn search_path_init(cfg: &Config, mode: SearchMode, pattern: &str, path: &str, l: &Listing) -> (r: Option<Report>)
    ensures
        r is None <==> listing_weight(*l) > u64::MAX,
        r matches Some(rep) ==> (texts(rep.lines@), texts(rep.errors@)) == search_report(*cfg, mode, pattern@, path@, *l),
{
    if weight_within(l, u64::MAX).is_none() {
        return None;
    }
    let mut found = EntryCounter::new();
    let mut full = EntryCounter::new();
    let mut lines: Vec<String> = Vec::new();
    let mut errors: Vec<String> = Vec::new();
    proof {
        assert(texts(lines@) =~= Seq::<Seq<char>>::empty());
        assert(texts(errors@) =~= Seq::<Seq<char>>::empty());
    }
    match search_path(&mut found, &mut full, cfg, mode, pattern, 0, l, &mut lines, &mut errors) {
        Some(msg) => {
            let mut errs: Vec<String> = Vec::new();
            if cfg.errors {
                let mut text = String::from_str("Error while iterating over \"");
                text.append(path);
                text.append("\"\n");
                text.append(msg.as_str());
                emit(&mut errs, text);
            }
            proof {
                assert(texts(errs@) =~= search_report(*cfg, mode, pattern@, path@, *l).1);
                assert(texts(lines@) =~= Seq::<Seq<char>>::empty());
            }
            Some(Report { lines, errors: errs })
        },
        None => {
            let ghost f = search_listing(*cfg, mode, pattern@, 0, *l)->Ok_0;
            proof {
                crate::search::lemma_search_bounded(*cfg, mode, pattern@, 0, crate::tree::entries_of(*l));
            }
            finish_search(path, &found, &full, &mut lines, Ghost(f.here), Ghost(f.below));
            Some(Report { lines, errors })
        },
    }
}

} // verus!
