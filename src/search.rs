use vstd::prelude::*;
use crate::config::{descends, should_descend, Config, SearchMode};
use crate::counter::{EntryCounter, Tally};
use crate::matching::{matches_name, name_matches};
use crate::render::{entry_line, presentable, render_entry, size_errors};
use crate::scan::iteration_error;
use crate::text::{emit, texts};
use crate::tree::{listing_weight, weight, Entry, EntryKind, Listing};

verus! {

/// What the search of one directory has gathered so far: the lines shown
/// (those of subdirectories included), the errors reported, the tallies of
/// the directory's own entries, the tallies of the entries found and shown
/// here and below, and the tallies of everything searched below.
pub struct SearchFrame {
    pub lines: Seq<Seq<char>>,
    pub errors: Seq<Seq<char>>,
    pub here: Tally,
    pub found: Tally,
    pub below: Tally,
}

/// The layout a search shows its entries in: absolute paths, no indentation.
pub open spec fn search_layout(cfg: Config) -> Config {
    Config { absolute: true, ..cfg }
}

pub open spec fn empty_search_frame() -> SearchFrame {
    SearchFrame {
        lines: Seq::empty(),
        errors: Seq::empty(),
        here: Tally::zero(),
        found: Tally::zero(),
        below: Tally::zero(),
    }
}

/// The search of a sequence of entries at `level`, in order.
pub open spec fn search_entries(
    cfg: Config,
    mode: SearchMode,
    pattern: Seq<char>,
    level: nat,
    s: Seq<Entry>,
) -> SearchFrame
    decreases s,
{
    if s.len() == 0 {
        empty_search_frame()
    } else {
        search_step(cfg, mode, pattern, level, search_entries(cfg, mode, pattern, level, s.drop_last()), s.last())
    }
}

/// The search of a listing at `level`, or the message of the failure to read it.
pub open spec fn search_listing(
    cfg: Config,
    mode: SearchMode,
    pattern: Seq<char>,
    level: nat,
    l: Listing,
) -> Result<SearchFrame, Seq<char>>
    decreases l,
{
    match l {
        Listing::Listed(v) => Ok(search_entries(cfg, mode, pattern, level, v@)),
        Listing::Failed(m) => Err(m@),
        Listing::Unlisted => Err(Seq::empty()),
    }
}

/// A symlink, file or special entry: counted, and also shown and counted
/// as found where its kind is listed, its name matches and it can be shown;
/// where it is to be shown and cannot be, it is not counted at all.
pub open spec fn search_leaf(cfg: Config, listed: bool, hit: bool, f: SearchFrame, e: Entry, level: nat, bump: spec_fn(Tally) -> Tally) -> SearchFrame {
    if !listed || !hit {
        SearchFrame { here: bump(f.here), ..f }
    } else if presentable(search_layout(cfg), e) {
        SearchFrame {
            lines: f.lines.push(entry_line(search_layout(cfg), e, level)),
            here: bump(f.here),
            found: bump(f.found),
            ..f
        }
    } else {
        f
    }
}

/// One entry more; one with no name is passed over. A directory is
/// counted, shown and counted as found where
/// its name matches (not at all where it matches and cannot be shown), and
/// searched within the depth limit whether it matched or not.
pub open spec fn search_step(
    cfg: Config,
    mode: SearchMode,
    pattern: Seq<char>,
    level: nat,
    f: SearchFrame,
    e: Entry,
) -> SearchFrame
    decreases e,
{
    match e.meta {
        None => f,
        Some(m) => match e.name {
            None => f,
            Some(n) => {
                let hit = name_matches(mode, n@, pattern);
                match m.kind {
                    EntryKind::Symlink => search_leaf(cfg, cfg.symlinks, hit, f, e, level,
                        |t: Tally| Tally { symlinks: t.symlinks + 1, ..t }),
                    EntryKind::RegularFile => search_leaf(cfg, cfg.files, hit, f, e, level,
                        |t: Tally| Tally { files: t.files + 1, ..t }),
                    EntryKind::Special(_) => search_leaf(cfg, cfg.special, hit, f, e, level,
                        |t: Tally| Tally { special: t.special + 1, ..t }),
                    EntryKind::Directory => {
                        let f1 = if !hit {
                            SearchFrame { here: Tally { dirs: f.here.dirs + 1, ..f.here }, ..f }
                        } else if presentable(search_layout(cfg), e) {
                            SearchFrame {
                                lines: f.lines.push(entry_line(search_layout(cfg), e, level)),
                                errors: f.errors + size_errors(search_layout(cfg), e),
                                here: Tally { dirs: f.here.dirs + 1, ..f.here },
                                found: Tally { dirs: f.found.dirs + 1, ..f.found },
                                ..f
                            }
                        } else {
                            SearchFrame { errors: f.errors + size_errors(search_layout(cfg), e), ..f }
                        };
                        if !descends(cfg, level) {
                            f1
                        } else {
                            match search_listing(cfg, mode, pattern, level + 1, e.children) {
                                Ok(sub) => SearchFrame {
                                    lines: f1.lines + sub.lines,
                                    errors: f1.errors + sub.errors,
                                    found: f1.found.add(sub.found),
                                    below: f1.below.add(sub.here).add(sub.below),
                                    ..f1
                                },
                                Err(msg) => if cfg.errors {
                                    SearchFrame { errors: f1.errors.push(iteration_error(e.path@, msg)), ..f1 }
                                } else {
                                    f1
                                },
                            }
                        }
                    },
                }
            },
        },
    }
}

/// Everything a search of `s` tallies fits within the weight of `s`.
pub(crate) proof fn lemma_search_bounded(cfg: Config, mode: SearchMode, pattern: Seq<char>, level: nat, s: Seq<Entry>)
    ensures
        search_entries(cfg, mode, pattern, level, s).here.sum()
            + search_entries(cfg, mode, pattern, level, s).below.sum() <= weight(s),
        search_entries(cfg, mode, pattern, level, s).found.sum() <= weight(s),
    decreases s,
{
    if s.len() > 0 {
        lemma_search_bounded(cfg, mode, pattern, level, s.drop_last());
        let e = s.last();
        let f = search_entries(cfg, mode, pattern, level, s.drop_last());
        assert(search_entries(cfg, mode, pattern, level, s) == search_step(cfg, mode, pattern, level, f, e));
        assert(weight(s) == weight(s.drop_last()) + 1 + e.file_len() + listing_weight(e.children));
        if let Listing::Listed(v) = e.children {
            lemma_search_bounded(cfg, mode, pattern, level + 1, v@);
            assert(search_listing(cfg, mode, pattern, level + 1, e.children) == Ok::<SearchFrame, Seq<char>>(
                search_entries(cfg, mode, pattern, level + 1, v@),
            ));
            assert(listing_weight(e.children) == weight(v@));
        }
    }
}

/// Searches one entry of a directory: the frame `f` gathered so far becomes
/// the frame after `e`.
fn search_one(
    found: &mut EntryCounter,
    full: &mut EntryCounter,
    cur: &mut EntryCounter,
    cfg: &Config,
    layout: &Config,
    mode: SearchMode,
    pattern: &str,
    level: u64,
    e: &Entry,
    lines: &mut Vec<String>,
    errors: &mut Vec<String>,
    Ghost(found0): Ghost<Tally>,
    Ghost(full0): Ghost<Tally>,
    Ghost(lines0): Ghost<Seq<Seq<char>>>,
    Ghost(errors0): Ghost<Seq<Seq<char>>>,
    Ghost(f): Ghost<SearchFrame>,
)
    requires
        *layout == search_layout(*cfg),
        level + 1 + listing_weight(e.children) <= u64::MAX,
        f.here.sum() + f.below.sum() + 1 + listing_weight(e.children) <= u64::MAX,
        f.found.sum() + 1 + listing_weight(e.children) <= u64::MAX,
        full0.has_room((f.below.sum() + 1 + listing_weight(e.children)) as nat),
        found0.has_room((f.found.sum() + 1 + listing_weight(e.children)) as nat),
        old(cur)@ == f.here,
        old(found)@ == found0.add(f.found),
        old(full)@ == full0.add(f.below),
        texts(old(lines)@) == lines0 + f.lines,
        texts(old(errors)@) == errors0 + f.errors,
    ensures
        final(cur)@ == search_step(*cfg, mode, pattern@, level as nat, f, *e).here,
        final(found)@ == found0.add(search_step(*cfg, mode, pattern@, level as nat, f, *e).found),
        final(full)@ == full0.add(search_step(*cfg, mode, pattern@, level as nat, f, *e).below),
        texts(final(lines)@) == lines0 + search_step(*cfg, mode, pattern@, level as nat, f, *e).lines,
        texts(final(errors)@) == errors0 + search_step(*cfg, mode, pattern@, level as nat, f, *e).errors,
    decreases listing_weight(e.children), 1nat,
{
    if let Some(m) = &e.meta {
        if let Some(name) = &e.name {
            let hit = matches_name(mode, name.as_str(), pattern);
            match m.kind {
                EntryKind::Symlink => {
                    if !cfg.symlinks || !hit {
                        cur.inc_symlink_cnt(1);
                    } else if let Some(t) = render_entry(layout, e, level, errors) {
                        emit(lines, t);
                        cur.inc_symlink_cnt(1);
                        found.inc_symlink_cnt(1);
                    }
                },
                EntryKind::RegularFile => {
                    if !cfg.files || !hit {
                        cur.inc_file_cnt(1);
                    } else if let Some(t) = render_entry(layout, e, level, errors) {
                        emit(lines, t);
                        cur.inc_file_cnt(1);
                        found.inc_file_cnt(1);
                    }
                },
                EntryKind::Special(_) => {
                    if !cfg.special || !hit {
                        cur.inc_special_cnt(1);
                    } else if let Some(t) = render_entry(layout, e, level, errors) {
                        emit(lines, t);
                        cur.inc_special_cnt(1);
                        found.inc_special_cnt(1);
                    }
                },
                EntryKind::Directory => {
                    if !hit {
                        cur.inc_dir_cnt(1);
                    } else if let Some(t) = render_entry(layout, e, level, errors) {
                        emit(lines, t);
                        cur.inc_dir_cnt(1);
                        found.inc_dir_cnt(1);
                    }
                    if should_descend(cfg, level) {
                        if let Some(msg) = search_path(found, full, cfg, mode, pattern, level + 1, &e.children, lines, errors) {
                            if cfg.errors {
                                let mut text = String::from_str("Error while iterating over \"");
                                text.append(e.path.as_str());
                                text.append("\"\n");
                                text.append(msg.as_str());
                                emit(errors, text);
                            }
                        }
                    }
                },
            }
        }
    }
    proof {
        assert(texts(lines@) =~= lines0 + search_step(*cfg, mode, pattern@, level as nat, f, *e).lines);
        assert(texts(errors@) =~= errors0 + search_step(*cfg, mode, pattern@, level as nat, f, *e).errors);
    }
}

/// Searches a directory at `level` whose listing is `listing` for entries
/// whose name matches `pattern`: shows those of the listed kinds with
/// absolute paths, descends into every subdirectory within the depth limit,
/// appends the lines shown to `lines` and the errors to `errors`, adds the
/// entries found and shown to `found`, and the tallies of this directory and
/// everything below it to `full`. Returns the message where the directory
/// itself cannot be read, and then changes nothing.
pub fn search_path(
    found: &mut EntryCounter,
    full: &mut EntryCounter,
    cfg: &Config,
    mode: SearchMode,
    pattern: &str,
    level: u64,
    listing: &Listing,
    lines: &mut Vec<String>,
    errors: &mut Vec<String>,
) -> (r: Option<String>)
    requires
        level + listing_weight(*listing) <= u64::MAX,
        old(full)@.has_room(listing_weight(*listing)),
        old(found)@.has_room(listing_weight(*listing)),
    ensures
        match search_listing(*cfg, mode, pattern@, level as nat, *listing) {
            Err(m) => {
                &&& r matches Some(x) && x@ == m
                &&& *final(found) == *old(found)
                &&& *final(full) == *old(full)
                &&& final(lines)@ == old(lines)@
                &&& final(errors)@ == old(errors)@
            },
            Ok(f) => {
                &&& r is None
                &&& texts(final(lines)@) == texts(old(lines)@) + f.lines
                &&& texts(final(errors)@) == texts(old(errors)@) + f.errors
                &&& final(full)@ == old(full)@.add(f.here).add(f.below)
                &&& final(found)@ == old(found)@.add(f.found)
            },
        },
    decreases listing_weight(*listing), 0nat,
{
    let v = match listing {
        Listing::Listed(v) => v,
        Listing::Failed(m) => { return Some(m.clone()); },
        Listing::Unlisted => { return Some(String::new()); },
    };
    let layout = Config { absolute: true, ..*cfg };
    let ghost found0 = found@;
    let ghost full0 = full@;
    let ghost lines0 = texts(lines@);
    let ghost errors0 = texts(errors@);
    let mut cur = EntryCounter::new();
    let mut i: usize = 0;
    while i < v.len()
        invariant
            *listing == Listing::Listed(*v),
            layout == search_layout(*cfg),
            i <= v.len(),
            level + weight(v@) <= u64::MAX,
            full0.has_room(weight(v@)),
            found0.has_room(weight(v@)),
            cur@ == search_entries(*cfg, mode, pattern@, level as nat, v@.take(i as int)).here,
            found@ == found0.add(search_entries(*cfg, mode, pattern@, level as nat, v@.take(i as int)).found),
            full@ == full0.add(search_entries(*cfg, mode, pattern@, level as nat, v@.take(i as int)).below),
            texts(lines@) == lines0 + search_entries(*cfg, mode, pattern@, level as nat, v@.take(i as int)).lines,
            texts(errors@) == errors0 + search_entries(*cfg, mode, pattern@, level as nat, v@.take(i as int)).errors,
        decreases v.len() - i,
    {
        let e = &v[i];
        let ghost f = search_entries(*cfg, mode, pattern@, level as nat, v@.take(i as int));
        proof {
            assert(v@.take(i + 1).drop_last() == v@.take(i as int));
            assert(v@.take(i + 1).last() == v@[i as int]);
            crate::tree::lemma_weight_prefix(v@, i + 1);
            lemma_search_bounded(*cfg, mode, pattern@, level as nat, v@.take(i as int));
            lemma_search_bounded(*cfg, mode, pattern@, level as nat, v@.take(i + 1));
            assert(weight(v@.take(i + 1)) == weight(v@.take(i as int)) + 1 + e.file_len()
                + listing_weight(e.children));
            assert(listing_weight(*listing) == weight(v@));
            assert(search_entries(*cfg, mode, pattern@, level as nat, v@.take(i + 1))
                == search_step(*cfg, mode, pattern@, level as nat, f, *e));
        }
        search_one(found, full, &mut cur, cfg, &layout, mode, pattern, level, e, lines, errors,
            Ghost(found0), Ghost(full0), Ghost(lines0), Ghost(errors0), Ghost(f));
        i = i + 1;
    }
    proof {
        assert(v@.take(v.len() as int) == v@);
        lemma_search_bounded(*cfg, mode, pattern@, level as nat, v@);
    }
    full.merge(&cur);
    proof {
        let f = search_entries(*cfg, mode, pattern@, level as nat, v@);
        assert(full@ == full0.add(f.here).add(f.below));
    }
    None
}

} // verus!
