use vstd::prelude::*;

verus! {

/// How entry names are matched against a search pattern.
#[derive(Clone, Copy, Debug, PartialEq, Eq, Structural)]
pub enum SearchMode {
    /// The whole name equals the pattern.
    Exact,
    /// The name without its extension equals the pattern.
    Stem,
    /// The name contains the pattern.
    Contains,
}

/// What a scan shows and how far it goes.
#[derive(Clone, Copy, Debug, PartialEq, Eq, Structural)]
pub struct Config {
    /// Descend into subdirectories.
    pub recursive: bool,
    /// Deepest level to descend to; zero for no limit.
    pub max_depth: u64,
    /// Show permission triplets.
    pub permissions: bool,
    /// Show the last modification time.
    pub modified: bool,
    /// Show canonical paths without indentation and without summary lines.
    pub absolute: bool,
    /// List regular files one by one.
    pub files: bool,
    /// List symlinks one by one.
    pub symlinks: bool,
    /// List special files one by one.
    pub special: bool,
    /// Compute and show directory sizes.
    pub dir_size: bool,
    /// Report traversal errors.
    pub errors: bool,
}

/// Whether a directory shown at `level` is descended into.
pub open spec fn descends(cfg: Config, level: nat) -> bool {
    cfg.recursive && (cfg.max_depth == 0 || level < cfg.max_depth)
}

/// Decides whether a directory shown at `level` is descended into.
pub fn should_descend(cfg: &Config, level: u64) -> (r: bool)
    ensures
        r == descends(*cfg, level as nat),
{
    cfg.recursive && (cfg.max_depth == 0 || level < cfg.max_depth)
}

} // verus!

verus! {

/// Whether the listing of a directory at `level` is needed: for descending
/// into it, or for its size.
pub open spec fn needs_listing(cfg: Config, level: nat) -> bool {
    cfg.dir_size || descends(cfg, level)
}

/// Decides whether the listing of a directory at `level` is to be read.
pub fn lists_children(cfg: &Config, level: u64) -> (r: bool)
    ensures
        r == needs_listing(*cfg, level as nat),
{
    cfg.dir_size || should_descend(cfg, level)
}

} // verus!
