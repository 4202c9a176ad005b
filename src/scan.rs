use vstd::prelude::*;
use crate::config::{descends, should_descend, Config};
use crate::counter::{EntryCounter, Tally};
use crate::render::{entry_line, presentable, render_entry, size_errors};
use crate::text::{
    blank, emit, indentation, int_to_formatted_slice, pad_left, right_align, spaces, texts,
    thousands,
};
use crate::tree::{listing_weight, weight, Entry, EntryKind, Listing};

verus! {

/// What the scan of one directory has gathered so far: the lines shown
/// (those of subdirectories included), the errors reported, the tallies of
/// the directory's own entries, the bytes of the files it did not list one
/// by one, and the tallies of everything scanned below it.
pub struct ScanFrame {
    pub lines: Seq<Seq<char>>,
    pub errors: Seq<Seq<char>>,
    pub here: Tally,
    pub hidden_bytes: nat,
    pub below: Tally,
}

pub open spec fn empty_frame() -> ScanFrame {
    ScanFrame {
        lines: Seq::empty(),
        errors: Seq::empty(),
        here: Tally::zero(),
        hidden_bytes: 0,
        below: Tally::zero(),
    }
}

/// The scan of a sequence of entries at `level`, in order.
pub open spec fn scan_entries(cfg: Config, level: nat, s: Seq<Entry>) -> ScanFrame
    decreases s,
{
    if s.len() == 0 {
        empty_frame()
    } else {
        scan_step(cfg, level, scan_entries(cfg, level, s.drop_last()), s.last())
    }
}

/// The error reported for a subdirectory that cannot be read.
pub open spec fn iteration_error(path: Seq<char>, message: Seq<char>) -> Seq<char> {
    "Error while iterating over \""@ + path + "\"\n"@ + message
}

/// The scan of a listing at `level`, or the message of the failure to read it.
pub open spec fn scan_listing(cfg: Config, level: nat, l: Listing) -> Result<ScanFrame, Seq<char>>
    decreases l,
{
    match l {
        Listing::Listed(v) => Ok(scan_entries(cfg, level, v@)),
        Listing::Failed(m) => Err(m@),
        Listing::Unlisted => Err(Seq::empty()),
    }
}

/// One entry more: it is counted by kind whether shown or not, unless it is
/// to be shown and cannot be; the bytes of a file that is not listed go to
/// the hidden total; a directory is always shown, and descended into where
/// the configuration allows.
pub open spec fn scan_step(cfg: Config, level: nat, f: ScanFrame, e: Entry) -> ScanFrame
    decreases e,
{
    match e.meta {
        None => f,
        Some(m) => match m.kind {
            EntryKind::Symlink => if !cfg.symlinks {
                ScanFrame { here: Tally { symlinks: f.here.symlinks + 1, ..f.here }, ..f }
            } else if presentable(cfg, e) {
                ScanFrame {
                    lines: f.lines.push(entry_line(cfg, e, level)),
                    here: Tally { symlinks: f.here.symlinks + 1, ..f.here },
                    ..f
                }
            } else {
                f
            },
            EntryKind::RegularFile => if !cfg.files {
                ScanFrame {
                    here: Tally { files: f.here.files + 1, ..f.here },
                    hidden_bytes: f.hidden_bytes + m.len as nat,
                    ..f
                }
            } else if presentable(cfg, e) {
                ScanFrame {
                    lines: f.lines.push(entry_line(cfg, e, level)),
                    here: Tally { files: f.here.files + 1, ..f.here },
                    ..f
                }
            } else {
                f
            },
            EntryKind::Special(_) => if !cfg.special {
                ScanFrame { here: Tally { special: f.here.special + 1, ..f.here }, ..f }
            } else if presentable(cfg, e) {
                ScanFrame {
                    lines: f.lines.push(entry_line(cfg, e, level)),
                    here: Tally { special: f.here.special + 1, ..f.here },
                    ..f
                }
            } else {
                f
            },
            EntryKind::Directory => {
                let f1 = ScanFrame { errors: f.errors + size_errors(cfg, e), ..f };
                if !presentable(cfg, e) {
                    f1
                } else {
                    let f2 = ScanFrame {
                        lines: f1.lines.push(entry_line(cfg, e, level)),
                        here: Tally { dirs: f1.here.dirs + 1, ..f1.here },
                        ..f1
                    };
                    if !descends(cfg, level) {
                        f2
                    } else {
                        match scan_listing(cfg, level + 1, e.children) {
                            Ok(sub) => ScanFrame {
                                lines: f2.lines + dir_lines(cfg, level + 1, sub),
                                errors: f2.errors + sub.errors,
                                below: f2.below.add(sub.here).add(sub.below),
                                ..f2
                            },
                            Err(msg) => if cfg.errors {
                                ScanFrame { errors: f2.errors.push(iteration_error(e.path@, msg)), ..f2 }
                            } else {
                                f2
                            },
                        }
                    }
                }
            },
        },
    }
}

/// Blank permission and time columns for a summary line; the special-file
/// line leaves out the time column.
pub open spec fn blank_lead(cfg: Config, with_time: bool) -> Seq<char> {
    (if cfg.permissions {
        spaces(12)
    } else {
        Seq::empty()
    }) + (if cfg.modified && with_time {
        spaces(20)
    } else {
        Seq::empty()
    })
}

/// A summary line `<N what>` standing for the entries of a kind that were
/// not listed one by one.
pub open spec fn aggregate_line(
    cfg: Config,
    level: nat,
    with_time: bool,
    col: Seq<char>,
    count: nat,
    what: Seq<char>,
) -> Seq<char> {
    blank_lead(cfg, with_time) + pad_left(col, 20) + "    "@ + spaces(4 * level) + "<"@ + thousands(
        count,
    ) + what
}

/// The summary lines of a directory: one for each kind that is not listed
/// and has entries, none in absolute mode. The file line shows the hidden
/// bytes where sizes are asked for.
pub open spec fn summary_lines(cfg: Config, level: nat, here: Tally, hidden: nat) -> Seq<Seq<char>> {
    if cfg.absolute {
        Seq::empty()
    } else {
        let file_col = if cfg.dir_size {
            thousands(hidden)
        } else {
            Seq::empty()
        };
        let mark = if cfg.dir_size {
            "-"@
        } else {
            " "@
        };
        (if !cfg.files && here.files != 0 {
            seq![aggregate_line(cfg, level, true, file_col, here.files, " files>"@)]
        } else {
            Seq::empty()
        }) + (if !cfg.symlinks && here.symlinks != 0 {
            seq![aggregate_line(cfg, level, true, mark, here.symlinks, " symlinks>"@)]
        } else {
            Seq::empty()
        }) + (if !cfg.special && here.special != 0 {
            seq![aggregate_line(cfg, level, false, mark, here.special, " special entries>"@)]
        } else {
            Seq::empty()
        })
    }
}

/// All the lines of a scanned directory: its entries' and then its summary.
pub open spec fn dir_lines(cfg: Config, level: nat, f: ScanFrame) -> Seq<Seq<char>> {
    f.lines + summary_lines(cfg, level, f.here, f.hidden_bytes)
}

/// Everything a scan of `s` tallies, and the bytes it hides, fit within the
/// weight of `s`.
pub(crate) proof fn lemma_scan_bounded(cfg: Config, level: nat, s: Seq<Entry>)
    ensures
        scan_entries(cfg, level, s).here.sum() + scan_entries(cfg, level, s).below.sum()
            + scan_entries(cfg, level, s).hidden_bytes <= weight(s),
    decreases s,
{
    if s.len() > 0 {
        lemma_scan_bounded(cfg, level, s.drop_last());
        let e = s.last();
        let f = scan_entries(cfg, level, s.drop_last());
        assert(scan_entries(cfg, level, s) == scan_step(cfg, level, f, e));
        assert(weight(s) == weight(s.drop_last()) + 1 + e.file_len() + listing_weight(e.children));
        if let Listing::Listed(v) = e.children {
            lemma_scan_bounded(cfg, level + 1, v@);
            assert(scan_listing(cfg, level + 1, e.children) == Ok::<ScanFrame, Seq<char>>(
                scan_entries(cfg, level + 1, v@),
            ));
            assert(listing_weight(e.children) == weight(v@));
        }
    }
}

fn aggregate_text(
    cfg: &Config,
    level: u64,
    with_time: bool,
    col: &str,
    count: u64,
    what: &str,
) -> (r: String)
    ensures
        r@ == aggregate_line(*cfg, level as nat, with_time, col@, count as nat, what@),
{
    let mut line = String::new();
    if cfg.permissions {
        let b = blank(12);
        line.append(b.as_str());
    }
    if cfg.modified && with_time {
        let b = blank(20);
        line.append(b.as_str());
    }
    let c = right_align(col, 20);
    line.append(c.as_str());
    line.append("    ");
    let ind = indentation(level);
    line.append(ind.as_str());
    line.append("<");
    let n = int_to_formatted_slice(count);
    line.append(n.as_str());
    line.append(what);
    assert(line@ =~= aggregate_line(*cfg, level as nat, with_time, col@, count as nat, what@));
    line
}

/// Appends the summary lines of a directory to `lines`.
fn push_summary(cfg: &Config, level: u64, here: &EntryCounter, hidden: u64, lines: &mut Vec<String>)
    ensures
        texts(final(lines)@) == texts(old(lines)@) + summary_lines(*cfg, level as nat, here@, hidden as nat),
{
    let ghost lines0 = texts(lines@);
    if cfg.absolute {
        assert(texts(lines@) =~= lines0 + summary_lines(*cfg, level as nat, here@, hidden as nat));
        return;
    }
    let file_col = if cfg.dir_size {
        int_to_formatted_slice(hidden)
    } else {
        String::new()
    };
    let mark = if cfg.dir_size {
        "-"
    } else {
        " "
    };
    let ghost a = lines0;
    if !cfg.files && here.get_file_cnt() != 0 {
        let t = aggregate_text(cfg, level, true, file_col.as_str(), here.get_file_cnt(), " files>");
        emit(lines, t);
    }
    let ghost b = texts(lines@);
    if !cfg.symlinks && here.get_symlink_cnt() != 0 {
        let t = aggregate_text(cfg, level, true, mark, here.get_symlink_cnt(), " symlinks>");
        emit(lines, t);
    }
    let ghost c = texts(lines@);
    if !cfg.special && here.get_special_cnt() != 0 {
        let t = aggregate_text(cfg, level, false, mark, here.get_special_cnt(), " special entries>");
        emit(lines, t);
    }
    assert(texts(lines@) =~= lines0 + summary_lines(*cfg, level as nat, here@, hidden as nat));
}

/// Scans a directory at `level` whose listing is `listing`: shows its
/// entries as the configuration asks, descends into subdirectories within
/// the depth limit, appends the lines shown to `lines` and the errors to
/// `errors`, adds its tallies and those of everything below it to `full`,
/// and, at level zero, its own tallies to `init`. Returns the message where
/// the directory itself cannot be read, and then changes nothing.
pub fn scan_path(
    init: &mut EntryCounter,
    full: &mut EntryCounter,
    cfg: &Config,
    level: u64,
    listing: &Listing,
    lines: &mut Vec<String>,
    errors: &mut Vec<String>,
) -> (r: Option<String>)
    requires
        level + listing_weight(*listing) <= u64::MAX,
        old(full)@.has_room(listing_weight(*listing)),
        level == 0 ==> old(init)@.has_room(listing_weight(*listing)),
    ensures
        match scan_listing(*cfg, level as nat, *listing) {
            Err(m) => {
                &&& r matches Some(x) && x@ == m
                &&& *final(init) == *old(init)
                &&& *final(full) == *old(full)
                &&& final(lines)@ == old(lines)@
                &&& final(errors)@ == old(errors)@
            },
            Ok(f) => {
                &&& r is None
                &&& texts(final(lines)@) == texts(old(lines)@) + dir_lines(*cfg, level as nat, f)
                &&& texts(final(errors)@) == texts(old(errors)@) + f.errors
                &&& final(full)@ == old(full)@.add(f.here).add(f.below)
                &&& final(init)@ == (if level == 0 { old(init)@.add(f.here) } else { old(init)@ })
            },
        },
    decreases listing_weight(*listing),
{
    let v = match listing {
        Listing::Listed(v) => v,
        Listing::Failed(m) => { return Some(m.clone()); },
        Listing::Unlisted => { return Some(String::new()); },
    };
    let ghost init0 = *init;
    let ghost full0 = full@;
    let ghost lines0 = texts(lines@);
    let ghost errors0 = texts(errors@);
    let mut cur = EntryCounter::new();
    let mut hidden: u64 = 0;
    let mut i: usize = 0;
    while i < v.len()
        invariant
            *listing == Listing::Listed(*v),
            i <= v.len(),
            level + weight(v@) <= u64::MAX,
            full0.has_room(weight(v@)),
            *init == init0,
            cur@ == scan_entries(*cfg, level as nat, v@.take(i as int)).here,
            hidden as nat == scan_entries(*cfg, level as nat, v@.take(i as int)).hidden_bytes,
            full@ == full0.add(scan_entries(*cfg, level as nat, v@.take(i as int)).below),
            texts(lines@) == lines0 + scan_entries(*cfg, level as nat, v@.take(i as int)).lines,
            texts(errors@) == errors0 + scan_entries(*cfg, level as nat, v@.take(i as int)).errors,
        decreases v.len() - i,
    {
        let e = &v[i];
        let ghost f = scan_entries(*cfg, level as nat, v@.take(i as int));
        proof {
            assert(v@.take(i + 1).drop_last() == v@.take(i as int));
            assert(v@.take(i + 1).last() == v@[i as int]);
            crate::tree::lemma_weight_prefix(v@, i + 1);
            lemma_scan_bounded(*cfg, level as nat, v@.take(i as int));
            assert(weight(v@.take(i + 1)) == weight(v@.take(i as int)) + 1 + e.file_len()
                + listing_weight(e.children));
            assert(listing_weight(*listing) == weight(v@));
            assert(scan_entries(*cfg, level as nat, v@.take(i + 1)) == scan_step(*cfg, level as nat, f, *e));
        }
        match &e.meta {
            None => {},
            Some(m) => match m.kind {
                EntryKind::Symlink => {
                    cur.inc_symlink_cnt(1);
                    if cfg.symlinks {
                        match render_entry(cfg, e, level, errors) {
                            Some(t) => emit(lines, t),
                            None => cur.dec_symlink_cnt(1),
                        }
                    }
                },
                EntryKind::RegularFile => {
                    cur.inc_file_cnt(1);
                    if !cfg.files {
                        hidden = hidden + m.len;
                    } else {
                        match render_entry(cfg, e, level, errors) {
                            Some(t) => emit(lines, t),
                            None => cur.dec_file_cnt(1),
                        }
                    }
                },
                EntryKind::Special(_) => {
                    cur.inc_special_cnt(1);
                    if cfg.special {
                        match render_entry(cfg, e, level, errors) {
                            Some(t) => emit(lines, t),
                            None => cur.dec_special_cnt(1),
                        }
                    }
                },
                EntryKind::Directory => {
                    cur.inc_dir_cnt(1);
                    match render_entry(cfg, e, level, errors) {
                        None => cur.dec_dir_cnt(1),
                        Some(t) => {
                            emit(lines, t);
                            if should_descend(cfg, level) {
                                if let Some(msg) = scan_path(init, full, cfg, level + 1, &e.children, lines, errors) {
                                    if cfg.errors {
                                        let mut text = String::from_str("Error while iterating over \"");
                                        text.append(e.path.as_str());
                                        text.append("\"\n");
                                        text.append(msg.as_str());
                                        emit(errors, text);
                                    }
                                }
                            }
                        },
                    }
                },
            },
        }
        proof {
            assert(texts(lines@) =~= lines0 + scan_entries(*cfg, level as nat, v@.take(i + 1)).lines);
            assert(texts(errors@) =~= errors0 + scan_entries(*cfg, level as nat, v@.take(i + 1)).errors);
        }
        i = i + 1;
    }
    proof {
        assert(v@.take(v.len() as int) == v@);
        lemma_scan_bounded(*cfg, level as nat, v@);
    }
    push_summary(cfg, level, &cur, hidden, lines);
    full.merge(&cur);
    if level == 0 {
        init.merge(&cur);
    }
    proof {
        let f = scan_entries(*cfg, level as nat, v@);
        assert(full@ == full0.add(f.here).add(f.below));
    }
    None
}

/// `t` with one more of the kind of `e`, where its metadata can be read.
pub open spec fn count_kind(t: Tally, e: Entry) -> Tally {
    match e.meta {
        None => t,
        Some(m) => match m.kind {
            EntryKind::Symlink => Tally { symlinks: t.symlinks + 1, ..t },
            EntryKind::RegularFile => Tally { files: t.files + 1, ..t },
            EntryKind::Directory => Tally { dirs: t.dirs + 1, ..t },
            EntryKind::Special(_) => Tally { special: t.special + 1, ..t },
        },
    }
}

/// The entries of `s` whose metadata can be read, tallied by kind.
pub open spec fn kind_counts(s: Seq<Entry>) -> Tally
    decreases s.len(),
{
    if s.len() == 0 {
        Tally::zero()
    } else {
        count_kind(kind_counts(s.drop_last()), s.last())
    }
}

/// The bytes of the regular files among `s` (not those below).
pub open spec fn file_bytes(s: Seq<Entry>) -> nat
    decreases s.len(),
{
    if s.len() == 0 {
        0
    } else {
        file_bytes(s.drop_last()) + s.last().file_len()
    }
}

/// Counting does not depend on what is shown: where every readable entry
/// could be shown, a directory's own tallies are the number of its
/// entries of each kind, whatever the configuration.
pub proof fn lemma_counts_by_kind(cfg: Config, level: nat, s: Seq<Entry>)
    requires
        forall|i: int| 0 <= i < s.len() && s[i].meta is Some ==> presentable(cfg, #[trigger] s[i]),
    ensures
        scan_entries(cfg, level, s).here == kind_counts(s),
    decreases s.len(),
{
    if s.len() > 0 {
        lemma_counts_by_kind(cfg, level, s.drop_last());
        let e = s.last();
        assert(e == s[s.len() - 1]);
        let f = scan_entries(cfg, level, s.drop_last());
        assert(scan_entries(cfg, level, s) == scan_step(cfg, level, f, e));
    }
}

/// The files not listed one by one add up, in bytes, to the number shown on
/// the directory's `<N files>` line: all its regular files where files are
/// not listed, none where they are.
pub proof fn lemma_hidden_file_bytes(cfg: Config, level: nat, s: Seq<Entry>)
    ensures
        scan_entries(cfg, level, s).hidden_bytes == (if cfg.files { 0 } else { file_bytes(s) }),
        !cfg.absolute && !cfg.files && scan_entries(cfg, level, s).here.files != 0 ==> summary_lines(
            cfg,
            level,
            scan_entries(cfg, level, s).here,
            scan_entries(cfg, level, s).hidden_bytes,
        )[0] == aggregate_line(
            cfg,
            level,
            true,
            if cfg.dir_size {
                thousands(file_bytes(s))
            } else {
                Seq::empty()
            },
            scan_entries(cfg, level, s).here.files,
            " files>"@,
        ),
    decreases s.len(),
{
    if s.len() > 0 {
        lemma_hidden_file_bytes(cfg, level, s.drop_last());
        let e = s.last();
        let f = scan_entries(cfg, level, s.drop_last());
        assert(scan_entries(cfg, level, s) == scan_step(cfg, level, f, e));
    }
}

/// One level less of a depth budget; `None` stands for no limit.
pub open spec fn next_budget(budget: Option<nat>) -> Option<nat> {
    match budget {
        Some(k) => Some((k - 1) as nat),
        None => None,
    }
}

/// The readable entries of `s` and, while the budget lasts, of the
/// readable listings of its directories, level by level.
pub open spec fn reach_count(s: Seq<Entry>, budget: Option<nat>) -> nat
    decreases s,
{
    if s.len() == 0 {
        0
    } else {
        reach_count(s.drop_last(), budget) + entry_reach(s.last(), budget)
    }
}

/// One readable entry, and, for a directory while the budget lasts, what
/// its listing reaches with one level less.
pub open spec fn entry_reach(e: Entry, budget: Option<nat>) -> nat
    decreases e,
{
    match e.meta {
        None => 0,
        Some(m) => 1 + if m.kind == EntryKind::Directory && (budget matches Some(k) ==> k > 0) {
            match e.children {
                Listing::Listed(v) => reach_count(v@, next_budget(budget)),
                _ => 0,
            }
        } else {
            0
        },
    }
}

/// Whether every readable entry of the tree under `s` can be shown.
pub open spec fn all_presentable(cfg: Config, s: Seq<Entry>) -> bool
    decreases s,
{
    if s.len() == 0 {
        true
    } else {
        all_presentable(cfg, s.drop_last()) && entry_presentable(cfg, s.last())
    }
}

/// Whether `e`, where readable, and everything listed under it can be shown.
pub open spec fn entry_presentable(cfg: Config, e: Entry) -> bool
    decreases e,
{
    &&& (e.meta is Some ==> presentable(cfg, e))
    &&& match e.children {
        Listing::Listed(v) => all_presentable(cfg, v@),
        _ => true,
    }
}

/// The depth budget left at `level`: none with no limit, else the levels
/// from `level` down to the limit.
pub open spec fn depth_budget(cfg: Config, level: nat) -> Option<nat> {
    if cfg.max_depth == 0 {
        None
    } else {
        Some((cfg.max_depth - level) as nat)
    }
}

/// A recursive scan from `level` reaches the entries down to the depth
/// limit and none deeper (with a limit of `d`, the entries at levels `0`
/// to `d` of a scan from level `0`), and with no limit the whole readable
/// tree: where every entry can be shown, everything the scan tallies,
/// here and below, is exactly what lies within the budget.
pub proof fn lemma_depth_limit(cfg: Config, level: nat, s: Seq<Entry>)
    requires
        cfg.recursive,
        cfg.max_depth == 0 || level <= cfg.max_depth,
        all_presentable(cfg, s),
    ensures
        scan_entries(cfg, level, s).here.sum() + scan_entries(cfg, level, s).below.sum() == reach_count(
            s,
            depth_budget(cfg, level),
        ),
    decreases s,
{
    if s.len() > 0 {
        let e = s.last();
        assert(all_presentable(cfg, s.drop_last()) && entry_presentable(cfg, e));
        lemma_depth_limit(cfg, level, s.drop_last());
        let f = scan_entries(cfg, level, s.drop_last());
        let b = depth_budget(cfg, level);
        assert(scan_entries(cfg, level, s) == scan_step(cfg, level, f, e));
        assert(reach_count(s, b) == reach_count(s.drop_last(), b) + entry_reach(e, b));
        assert(descends(cfg, level) <==> (b matches Some(k) ==> k > 0));
        if e.is_dir() && descends(cfg, level) {
            if let Listing::Listed(v) = e.children {
                assert(all_presentable(cfg, v@));
                lemma_depth_limit(cfg, level + 1, v@);
                assert(depth_budget(cfg, level + 1) == next_budget(b));
                assert(scan_listing(cfg, level + 1, e.children) == Ok::<ScanFrame, Seq<char>>(
                    scan_entries(cfg, level + 1, v@),
                ));
                assert(entry_reach(e, b) == 1 + reach_count(v@, next_budget(b)));
            } else {
                assert(entry_reach(e, b) == 1);
            }
        }
    }
}

} // verus!
