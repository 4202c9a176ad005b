use vstd::prelude::*;
use crate::config::Config;
use crate::size::{compute_size, size_in};
use crate::text::{
    emit, indentation, int_to_formatted_slice, pad_left, permission_text, permissions_text,
    right_align, spaces, texts, thousands,
};
use crate::tree::{listing_weight, Entry, EntryKind, Meta, SpecialKind};

verus! {

/// The text shown for a kind of special file.
pub open spec fn special_label(k: SpecialKind) -> Seq<char> {
    match k {
        SpecialKind::Socket => "SOCKET"@,
        SpecialKind::BlockDevice => "BLOCK DEVICE"@,
        SpecialKind::CharDevice => "CHAR DEVICE"@,
        SpecialKind::Fifo => "FIFO PIPE"@,
        SpecialKind::NotApplicable => "SPECIAL"@,
    }
}

fn special_text(k: SpecialKind) -> (r: &'static str)
    ensures
        r@ == special_label(k),
{
    match k {
        SpecialKind::Socket => "SOCKET",
        SpecialKind::BlockDevice => "BLOCK DEVICE",
        SpecialKind::CharDevice => "CHAR DEVICE",
        SpecialKind::Fifo => "FIFO PIPE",
        SpecialKind::NotApplicable => "SPECIAL",
    }
}

/// The text of an optional string.
pub open spec fn opt_text(o: Option<String>) -> Option<Seq<char>> {
    match o {
        Some(s) => Some(s@),
        None => None,
    }
}

/// The name an entry is shown under: its canonical path in absolute mode
/// (the path as listed, for a symlink), else the last component of its path.
pub open spec fn shown_name(cfg: Config, e: Entry) -> Option<Seq<char>> {
    if cfg.absolute {
        if e.is_symlink() {
            Some(e.path@)
        } else {
            opt_text(e.resolved)
        }
    } else {
        opt_text(e.name)
    }
}

/// Whether an entry can be shown: its metadata, the name it is shown under,
/// the target of a symlink and, where asked for, its modification time are
/// all known.
pub open spec fn presentable(cfg: Config, e: Entry) -> bool {
    &&& e.meta is Some
    &&& shown_name(cfg, e) is Some
    &&& (e.is_symlink() ==> e.resolved is Some)
    &&& (cfg.modified ==> e.meta->0.modified is Some)
}

/// `s` in angle brackets where `b` holds.
pub open spec fn bracketed(s: Seq<char>, b: bool) -> Seq<char> {
    if b {
        "<"@ + s + ">"@
    } else {
        s
    }
}

/// The permission and modification-time columns, as far as they are asked for.
pub open spec fn lead(cfg: Config, m: Meta) -> Seq<char> {
    (if cfg.permissions {
        permission_text(m.mode as nat) + "   "@
    } else {
        Seq::empty()
    }) + (if cfg.modified {
        pad_left(m.modified->0@, 20)
    } else {
        Seq::empty()
    })
}

/// The size column of a directory: empty unless sizes are asked for, then
/// its size or `ERROR`.
pub open spec fn size_column(cfg: Config, e: Entry) -> Seq<char> {
    if !cfg.dir_size {
        Seq::empty()
    } else {
        match size_in(e.path@, e.children) {
            Ok(n) => thousands(n),
            Err(_) => "ERROR"@,
        }
    }
}

/// The column before the name: a file's length, a directory's size, or
/// what kind of entry it is.
pub open spec fn column(cfg: Config, e: Entry) -> Seq<char> {
    match e.meta->0.kind {
        EntryKind::Symlink => "SYMLINK"@,
        EntryKind::RegularFile => thousands(e.meta->0.len as nat),
        EntryKind::Directory => size_column(cfg, e),
        EntryKind::Special(k) => special_label(k),
    }
}

/// The name part of the line: directories in angle brackets, symlinks with
/// their target (both in brackets where the target is a directory).
pub open spec fn label(cfg: Config, e: Entry) -> Seq<char> {
    let n = shown_name(cfg, e)->0;
    match e.meta->0.kind {
        EntryKind::Symlink => {
            let d = e.meta->0.target_is_dir;
            bracketed(n, d) + " -> "@ + bracketed(e.resolved->0@, d)
        },
        EntryKind::Directory => "<"@ + n + ">"@,
        _ => n,
    }
}

/// Spaces before the name: four per level, none in absolute mode.
pub open spec fn indent_of(cfg: Config, level: nat) -> nat {
    if cfg.absolute {
        0
    } else {
        4 * level
    }
}

/// The line that shows a presentable entry at `level`.
pub open spec fn entry_line(cfg: Config, e: Entry, level: nat) -> Seq<char> {
    lead(cfg, e.meta->0) + pad_left(column(cfg, e), 20) + "    "@ + spaces(indent_of(cfg, level))
        + label(cfg, e)
}

/// The error reported when the size of a directory about to be shown
/// cannot be computed.
pub open spec fn size_errors(cfg: Config, e: Entry) -> Seq<Seq<char>> {
    if cfg.dir_size && cfg.errors && e.is_dir() && shown_name(cfg, e) is Some {
        match size_in(e.path@, e.children) {
            Err((p, m)) => seq![
                "Error while traversing "@ + p + " while calculating size of directory "@ + e.path@
                    + "\n"@ + m,
            ],
            Ok(_) => Seq::empty(),
        }
    } else {
        Seq::empty()
    }
}

/// The column before the name; reports into `errors` a directory size
/// that cannot be computed.
fn entry_column(cfg: &Config, e: &Entry, errors: &mut Vec<String>) -> (r: String)
    requires
        e.meta is Some,
        shown_name(*cfg, *e) is Some,
        listing_weight(e.children) <= u64::MAX,
    ensures
        r@ == column(*cfg, *e),
        texts(final(errors)@) == texts(old(errors)@) + size_errors(*cfg, *e),
{
    let ghost errors0 = texts(errors@);
    let m = match &e.meta {
        Some(m) => m,
        None => { return String::new(); },
    };
    let col = match m.kind {
        EntryKind::Symlink => String::from_str("SYMLINK"),
        EntryKind::RegularFile => int_to_formatted_slice(m.len),
        EntryKind::Directory => {
            if cfg.dir_size {
                match compute_size(&e.path, &e.children) {
                    Ok(n) => int_to_formatted_slice(n),
                    Err(f) => {
                        if cfg.errors {
                            let mut msg = String::from_str("Error while traversing ");
                            msg.append(f.path.as_str());
                            msg.append(" while calculating size of directory ");
                            msg.append(e.path.as_str());
                            msg.append("\n");
                            msg.append(f.message.as_str());
                            emit(errors, msg);
                        }
                        String::from_str("ERROR")
                    },
                }
            } else {
                String::new()
            }
        },
        EntryKind::Special(k) => String::from_str(special_text(k)),
    };
    assert(texts(errors@) =~= errors0 + size_errors(*cfg, *e));
    col
}

/// The permission and modification-time columns, or `None` where the time
/// is asked for and unknown.
fn lead_text(cfg: &Config, m: &Meta) -> (r: Option<String>)
    ensures
        r is Some <==> (cfg.modified ==> m.modified is Some),
        r matches Some(t) ==> t@ == lead(*cfg, *m),
{
    let mut line = String::new();
    if cfg.permissions {
        let p = permissions_text(m.mode);
        line.append(p.as_str());
        line.append("   ");
    }
    if cfg.modified {
        match &m.modified {
            Some(t) => {
                let t = right_align(t.as_str(), 20);
                line.append(t.as_str());
            },
            None => { return None; },
        }
    }
    assert(line@ =~= lead(*cfg, *m));
    Some(line)
}

/// The name part of the line, given the name shown and the symlink target.
fn label_text(cfg: &Config, e: &Entry, name: &String, target: &String) -> (r: String)
    requires
        presentable(*cfg, *e),
        name@ == shown_name(*cfg, *e)->0,
        e.is_symlink() ==> target@ == e.resolved->0@,
    ensures
        r@ == label(*cfg, *e),
{
    let mut line = String::new();
    let m = match &e.meta {
        Some(m) => m,
        None => { return line; },
    };
    match m.kind {
        EntryKind::Symlink => {
            if m.target_is_dir {
                line.append("<");
                line.append(name.as_str());
                line.append(">");
            } else {
                line.append(name.as_str());
            }
            line.append(" -> ");
            if m.target_is_dir {
                line.append("<");
                line.append(target.as_str());
                line.append(">");
            } else {
                line.append(target.as_str());
            }
        },
        EntryKind::Directory => {
            line.append("<");
            line.append(name.as_str());
            line.append(">");
        },
        _ => {
            line.append(name.as_str());
        },
    }
    assert(line@ =~= label(*cfg, *e));
    line
}

/// Renders the line for an entry, or `None` where it cannot be shown;
/// reports into `errors` a directory size that cannot be computed.
pub fn render_entry(cfg: &Config, e: &Entry, level: u64, errors: &mut Vec<String>) -> (r: Option<String>)
    requires
        e.meta is Some,
        listing_weight(e.children) <= u64::MAX,
    ensures
        r is Some <==> presentable(*cfg, *e),
        r matches Some(t) ==> t@ == entry_line(*cfg, *e, level as nat),
        texts(final(errors)@) == texts(old(errors)@) + size_errors(*cfg, *e),
{
    let ghost errors0 = texts(errors@);
    let m = match &e.meta {
        Some(m) => m,
        None => { return None; },
    };
    let is_symlink = match m.kind {
        EntryKind::Symlink => true,
        _ => false,
    };
    let name: &String = if cfg.absolute {
        if is_symlink {
            &e.path
        } else {
            match &e.resolved {
                Some(p) => p,
                None => {
                    assert(texts(errors@) =~= errors0 + size_errors(*cfg, *e));
                    return None;
                },
            }
        }
    } else {
        match &e.name {
            Some(n) => n,
            None => {
                assert(texts(errors@) =~= errors0 + size_errors(*cfg, *e));
                return None;
            },
        }
    };
    let col = entry_column(cfg, e, errors);
    let mut line = match lead_text(cfg, m) {
        Some(l) => l,
        None => { return None; },
    };
    let target: &String = if is_symlink {
        match &e.resolved {
            Some(t) => t,
            None => { return None; },
        }
    } else {
        name
    };
    let c = right_align(col.as_str(), 20);
    line.append(c.as_str());
    line.append("    ");
    if !cfg.absolute {
        let ind = indentation(level);
        line.append(ind.as_str());
    } else {
        proof {
            assert(spaces(0) =~= Seq::<char>::empty());
        }
    }
    let l = label_text(cfg, e, name, target);
    line.append(l.as_str());
    proof {
        assert(line@ =~= entry_line(*cfg, *e, level as nat));
    }
    Some(line)
}

} // verus!
