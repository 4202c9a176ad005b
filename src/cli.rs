use vstd::prelude::*;
use crate::config::{Config, SearchMode};
use crate::matching::same_text;
use crate::text::{emit, texts};

verus! {

/// Longest root path kept, in characters; the rest is ignored.
pub const MAX_PATH_LEN: usize = 256;

/// What the command line asks for.
pub struct Options {
    /// Root of the scan.
    pub path: String,
    /// Search pattern, where a search mode is set.
    pub pattern: String,
    pub search: Option<SearchMode>,
    /// Print the usage text and stop.
    pub help: bool,
    pub config: Config,
}

/// Why the command line is refused.
pub enum ArgError {
    /// Two different search modes were asked for.
    ConflictingSearch,
    /// This search flag is the last argument, with no pattern after it.
    MissingPattern(String),
}

/// The state of the parse after some arguments, as values.
pub struct ArgState {
    pub path: Seq<char>,
    pub pattern: Seq<char>,
    pub search: Option<SearchMode>,
    pub help: bool,
    pub config: Config,
    /// The previous argument was the recursion flag.
    pub expect_depth: bool,
    /// A search flag came before, so a plain argument is the pattern.
    pub expect_pattern: bool,
    /// Notices printed so far.
    pub notices: Seq<Seq<char>>,
}

/// Why a parse stops, as values.
pub enum ArgFault {
    Conflict,
    Missing(Seq<char>),
}

/// The parse before any argument: scan `.`, nothing shown one by one, no
/// recursion, no search.
pub open spec fn initial_state() -> ArgState {
    ArgState {
        path: "."@,
        pattern: Seq::empty(),
        search: None,
        help: false,
        config: Config {
            recursive: false,
            max_depth: 0,
            permissions: false,
            modified: false,
            absolute: false,
            files: false,
            symlinks: false,
            special: false,
            dir_size: false,
            errors: false,
        },
        expect_depth: false,
        expect_pattern: false,
        notices: Seq::empty(),
    }
}

/// `s` without a leading `+`.
pub open spec fn unsigned_part(s: Seq<char>) -> Seq<char> {
    if s.len() > 0 && s[0] == '+' {
        s.drop_first()
    } else {
        s
    }
}

/// Whether every character of `d` is a decimal digit.
pub open spec fn all_digits(d: Seq<char>) -> bool {
    forall|i: int| 0 <= i < d.len() ==> '0' <= #[trigger] d[i] <= '9'
}

/// Whether `s` is an optional `+` followed by one or more decimal digits.
pub open spec fn is_decimal(s: Seq<char>) -> bool {
    unsigned_part(s).len() > 0 && all_digits(unsigned_part(s))
}

/// The value of a run of decimal digits.
pub open spec fn digits_value(d: Seq<char>) -> nat
    decreases d.len(),
{
    if d.len() == 0 {
        0
    } else {
        digits_value(d.drop_last()) * 10 + (d.last() as nat - '0' as nat) as nat
    }
}

/// The value of a decimal text with an optional `+`.
pub open spec fn decimal_value(s: Seq<char>) -> nat {
    digits_value(unsigned_part(s))
}

/// The search mode a flag asks for.
pub open spec fn search_flag(a: Seq<char>) -> Option<SearchMode> {
    if a == "-S"@ || a == "--search"@ {
        Some(SearchMode::Exact)
    } else if a == "--search-noext"@ {
        Some(SearchMode::Stem)
    } else if a == "--contains"@ {
        Some(SearchMode::Contains)
    } else {
        None
    }
}

/// The root path kept from an argument.
pub open spec fn truncated(a: Seq<char>) -> Seq<char> {
    if a.len() > MAX_PATH_LEN {
        a.subrange(0, MAX_PATH_LEN as int)
    } else {
        a
    }
}

/// A plain argument: the recursion depth right after the recursion flag,
/// else the pattern once a search flag came, else the root path.
pub open spec fn plain_step(st: ArgState, a: Seq<char>) -> ArgState {
    if st.expect_depth {
        let st = ArgState { expect_depth: false, ..st };
        if is_decimal(a) && decimal_value(a) <= u64::MAX {
            let d = decimal_value(a);
            if d == 0 {
                ArgState {
                    config: Config { max_depth: 0, recursive: false, ..st.config },
                    notices: st.notices.push("Maximum recursion depth must be greater than 0!"@).push(
                        "Ignoring recursive option"@,
                    ),
                    ..st
                }
            } else {
                ArgState { config: Config { max_depth: d as u64, ..st.config }, ..st }
            }
        } else {
            ArgState {
                config: Config { recursive: false, ..st.config },
                notices: st.notices.push("Could not convert \""@ + a + "\" to an integer"@).push(
                    "Ignoring recursive option"@,
                ),
                ..st
            }
        }
    } else if st.expect_pattern {
        ArgState { pattern: a, ..st }
    } else {
        ArgState { path: truncated(a), ..st }
    }
}

/// A flag; `last` says whether it is the last argument.
pub open spec fn flag_step(st: ArgState, a: Seq<char>, last: bool) -> Result<ArgState, ArgFault> {
    let st = ArgState { expect_depth: false, expect_pattern: false, ..st };
    let c = st.config;
    if let Some(m) = search_flag(a) {
        if st.search matches Some(o) && o != m {
            Err(ArgFault::Conflict)
        } else if last {
            Err(ArgFault::Missing(a))
        } else {
            Ok(ArgState { search: Some(m), expect_pattern: true, ..st })
        }
    } else if a == "-h"@ || a == "--help"@ {
        Ok(ArgState { help: true, ..st })
    } else if a == "-e"@ || a == "--show-err"@ {
        Ok(ArgState { config: Config { errors: true, ..c }, ..st })
    } else if a == "-r"@ || a == "--recursive"@ {
        Ok(ArgState { config: Config { recursive: true, ..c }, expect_depth: true, ..st })
    } else if a == "-f"@ || a == "--files"@ {
        Ok(ArgState { config: Config { files: true, ..c }, ..st })
    } else if a == "-l"@ || a == "--symlinks"@ {
        Ok(ArgState { config: Config { symlinks: true, ..c }, ..st })
    } else if a == "-s"@ || a == "--special"@ {
        Ok(ArgState { config: Config { special: true, ..c }, ..st })
    } else if a == "-d"@ || a == "--dir-size"@ {
        Ok(ArgState { config: Config { dir_size: true, ..c }, ..st })
    } else if a == "-a"@ || a == "--abs"@ {
        Ok(ArgState { config: Config { absolute: true, ..c }, ..st })
    } else if a == "-p"@ || a == "--permissions"@ {
        Ok(ArgState { config: Config { permissions: true, ..c }, ..st })
    } else if a == "-t"@ || a == "--modification-time"@ {
        Ok(ArgState { config: Config { modified: true, ..c }, ..st })
    } else {
        Ok(ArgState { notices: st.notices.push("Ignoring unknown option "@ + a), ..st })
    }
}

/// One argument: an empty one is ignored with a notice, one that does not
/// start with `-` is plain, any other is a flag.
pub open spec fn arg_step(st: ArgState, a: Seq<char>, last: bool) -> Result<ArgState, ArgFault> {
    if a.len() == 0 {
        Ok(ArgState { notices: st.notices.push("Ignoring Unknown Option of length 0"@), ..st })
    } else if a[0] != '-' {
        Ok(plain_step(st, a))
    } else {
        flag_step(st, a, last)
    }
}

/// The parse of the first `n` of `args`: the state, or the notices printed
/// before the fault and the fault.
pub open spec fn parse_prefix(args: Seq<Seq<char>>, n: nat) -> Result<ArgState, (Seq<Seq<char>>, ArgFault)>
    decreases n,
{
    if n == 0 {
        Ok(initial_state())
    } else {
        match parse_prefix(args, (n - 1) as nat) {
            Err(e) => Err(e),
            Ok(st) => match arg_step(st, args[n - 1], n == args.len()) {
                Ok(st2) => Ok(st2),
                Err(f) => Err((st.notices, f)),
            },
        }
    }
}

/// The texts of the arguments.
pub open spec fn arg_texts(args: Seq<String>) -> Seq<Seq<char>> {
    texts(args)
}

/// The parse state that these values stand for.
pub open spec fn state_of(o: Options, expect_depth: bool, expect_pattern: bool, notices: Seq<String>) -> ArgState {
    ArgState {
        path: o.path@,
        pattern: o.pattern@,
        search: o.search,
        help: o.help,
        config: o.config,
        expect_depth,
        expect_pattern,
        notices: texts(notices),
    }
}

/// The fault that an error stands for.
pub open spec fn fault_of(e: ArgError) -> ArgFault {
    match e {
        ArgError::ConflictingSearch => ArgFault::Conflict,
        ArgError::MissingPattern(f) => ArgFault::Missing(f@),
    }
}

proof fn lemma_digits_value_prefix(d: Seq<char>, i: int)
    requires
        0 <= i <= d.len(),
    ensures
        digits_value(d.take(i)) <= digits_value(d),
    decreases d.len() - i,
{
    if i < d.len() {
        lemma_digits_value_prefix(d, i + 1);
        assert(d.take(i + 1).drop_last() == d.take(i));
    } else {
        assert(d.take(i) == d);
    }
}

/// Reads an optional `+` and decimal digits as a `u64`; `None` for any
/// other text and for a value beyond `u64::MAX`.
pub fn parse_u64(s: &str) -> (r: Option<u64>)
    ensures
        r is Some <==> is_decimal(s@) && decimal_value(s@) <= u64::MAX,
        r matches Some(v) ==> v == decimal_value(s@),
{
    let n = s.unicode_len();
    let start: usize = if n > 0 && s.get_char(0) == '+' { 1 } else { 0 };
    let ghost d = unsigned_part(s@);
    if start >= n {
        return None;
    }
    let mut value: u64 = 0;
    let mut i: usize = start;
    while i < n
        invariant
            n == s@.len(),
            start <= i <= n,
            start < n,
            d == s@.subrange(start as int, n as int),
            d == unsigned_part(s@),
            value == digits_value(d.take(i - start)),
            forall|k: int| 0 <= k < i - start ==> '0' <= #[trigger] d[k] <= '9',
        decreases n - i,
    {
        let c = s.get_char(i);
        proof {
            assert(d[i - start] == c);
            assert(d.take(i - start + 1).drop_last() == d.take(i - start));
            assert(d.take(i - start + 1).last() == c);
        }
        if c < '0' || c > '9' {
            proof {
                assert(!('0' <= d[i - start] <= '9'));
                assert(!all_digits(d));
            }
            return None;
        }
        let digit = (c as u32 - '0' as u32) as u64;
        if value > (u64::MAX - digit) / 10 {
            proof {
                assert(value * 10 + digit > u64::MAX) by (nonlinear_arith)
                    requires value > (u64::MAX - digit) / 10, digit <= 9;
                lemma_digits_value_prefix(d, i - start + 1);
                assert(digits_value(d.take(i - start + 1)) == value * 10 + digit);
            }
            return None;
        }
        proof {
            assert(value * 10 + digit <= u64::MAX) by (nonlinear_arith)
                requires value <= (u64::MAX - digit) / 10, digit <= 9;
        }
        value = value * 10 + digit;
        i = i + 1;
    }
    proof {
        assert(d.take(n - start) == d);
    }
    Some(value)
}

/// Whether `a` is one of the two spellings of a flag.
fn is_flag(a: &str, short: &str, long: &str) -> (r: bool)
    ensures
        r == (a@ == short@ || a@ == long@),
{
    same_text(a, short) || same_text(a, long)
}

/// Reads one plain argument.
#[verifier::rlimit(60)]
fn plain_arg(o: &mut Options, expect_depth: &mut bool, expect_pattern: &mut bool, notices: &mut Vec<String>, a: &String)
    ensures
        state_of(*final(o), *final(expect_depth), *final(expect_pattern), final(notices)@)
            == plain_step(state_of(*old(o), *old(expect_depth), *old(expect_pattern), old(notices)@), a@),
{
    let ghost st0 = state_of(*o, *expect_depth, *expect_pattern, notices@);
    if *expect_depth {
        *expect_depth = false;
        match parse_u64(a.as_str()) {
            Some(d) => {
                o.config.max_depth = d;
                if d == 0 {
                    o.config.recursive = false;
                    emit(notices, String::from_str("Maximum recursion depth must be greater than 0!"));
                    emit(notices, String::from_str("Ignoring recursive option"));
                }
            },
            None => {
                o.config.recursive = false;
                let mut t = String::from_str("Could not convert \"");
                t.append(a.as_str());
                t.append("\" to an integer");
                emit(notices, t);
                emit(notices, String::from_str("Ignoring recursive option"));
            },
        }
    } else if *expect_pattern {
        o.pattern = a.clone();
    } else {
        let n = a.as_str().unicode_len();
        if n > MAX_PATH_LEN {
            o.path = String::from_str(a.as_str().substring_char(0, MAX_PATH_LEN));
        } else {
            o.path = a.clone();
        }
    }
    proof {
        let st = state_of(*o, *expect_depth, *expect_pattern, notices@);
        let sp = plain_step(st0, a@);
        assert(st.notices =~= sp.notices);
        assert(st.path =~= sp.path);
    }
}

/// Reads one flag; an error where the parse must stop.
#[verifier::rlimit(60)]
fn flag_arg(
    o: &mut Options,
    expect_depth: &mut bool,
    expect_pattern: &mut bool,
    notices: &mut Vec<String>,
    a: &String,
    last: bool,
) -> (r: Option<ArgError>)
    ensures
        match flag_step(state_of(*old(o), *old(expect_depth), *old(expect_pattern), old(notices)@), a@, last) {
            Ok(st) => r is None && state_of(*final(o), *final(expect_depth), *final(expect_pattern), final(notices)@) == st,
            Err(f) => r matches Some(e) && fault_of(e) == f && final(notices)@ == old(notices)@,
        },
{
    let ghost st0 = state_of(*o, *expect_depth, *expect_pattern, notices@);
    *expect_depth = false;
    *expect_pattern = false;
    let s = a.as_str();
    let mode = if is_flag(s, "-S", "--search") {
        Some(SearchMode::Exact)
    } else if same_text(s, "--search-noext") {
        Some(SearchMode::Stem)
    } else if same_text(s, "--contains") {
        Some(SearchMode::Contains)
    } else {
        None
    };
    if let Some(m) = mode {
        if let Some(prev) = o.search {
            if prev != m {
                return Some(ArgError::ConflictingSearch);
            }
        }
        if last {
            return Some(ArgError::MissingPattern(a.clone()));
        }
        o.search = Some(m);
        *expect_pattern = true;
    } else if is_flag(s, "-h", "--help") {
        o.help = true;
    } else if is_flag(s, "-e", "--show-err") {
        o.config.errors = true;
    } else if is_flag(s, "-r", "--recursive") {
        o.config.recursive = true;
        *expect_depth = true;
    } else if is_flag(s, "-f", "--files") {
        o.config.files = true;
    } else if is_flag(s, "-l", "--symlinks") {
        o.config.symlinks = true;
    } else if is_flag(s, "-s", "--special") {
        o.config.special = true;
    } else if is_flag(s, "-d", "--dir-size") {
        o.config.dir_size = true;
    } else if is_flag(s, "-a", "--abs") {
        o.config.absolute = true;
    } else if is_flag(s, "-p", "--permissions") {
        o.config.permissions = true;
    } else if is_flag(s, "-t", "--modification-time") {
        o.config.modified = true;
    } else {
        let mut t = String::from_str("Ignoring unknown option ");
        t.append(s);
        emit(notices, t);
    }
    proof {
        let st = state_of(*o, *expect_depth, *expect_pattern, notices@);
        assert(st.notices =~= texts(notices@));
    }
    None
}

/// What parsing the command line gives: the notices printed along the way,
/// and the options or the reason the command line is refused.
pub struct ParsedArgs {
    pub notices: Vec<String>,
    pub outcome: Result<Options, ArgError>,
}

/// Parses the arguments that follow the program name, in order.
pub fn parse_args(args: &Vec<String>) -> (r: ParsedArgs)
    ensures
        match parse_prefix(arg_texts(args@), args.len() as nat) {
            Ok(st) => r.outcome matches Ok(o) && state_of(o, st.expect_depth, st.expect_pattern, r.notices@) == st,
            Err((ns, f)) => r.outcome matches Err(e) && fault_of(e) == f && texts(r.notices@) == ns,
        },
{
    let mut o = Options {
        path: String::from_str("."),
        pattern: String::new(),
        search: None,
        help: false,
        config: Config {
            recursive: false,
            max_depth: 0,
            permissions: false,
            modified: false,
            absolute: false,
            files: false,
            symlinks: false,
            special: false,
            dir_size: false,
            errors: false,
        },
    };
    let mut expect_depth = false;
    let mut expect_pattern = false;
    let mut notices: Vec<String> = Vec::new();
    proof {
        assert(texts(notices@) =~= Seq::<Seq<char>>::empty());
        reveal_strlit(".");
        assert(state_of(o, expect_depth, expect_pattern, notices@) == initial_state());
    }
    let mut i: usize = 0;
    while i < args.len()
        invariant
            i <= args.len(),
            parse_prefix(arg_texts(args@), i as nat) == Ok::<ArgState, (Seq<Seq<char>>, ArgFault)>(
                state_of(o, expect_depth, expect_pattern, notices@),
            ),
        decreases args.len() - i,
    {
        let a = &args[i];
        let ghost st = state_of(o, expect_depth, expect_pattern, notices@);
        proof {
            assert(arg_texts(args@)[i as int] == a@);
        }
        let n = a.as_str().unicode_len();
        if n == 0 {
            emit(&mut notices, String::from_str("Ignoring Unknown Option of length 0"));
        } else if a.as_str().get_char(0) != '-' {
            plain_arg(&mut o, &mut expect_depth, &mut expect_pattern, &mut notices, a);
        } else {
            if let Some(e) = flag_arg(&mut o, &mut expect_depth, &mut expect_pattern, &mut notices, a, i + 1 == args.len()) {
                proof {
                    assert(parse_prefix(arg_texts(args@), (i + 1) as nat) matches Err(_));
                    lemma_fault_persists(arg_texts(args@), (i + 1) as nat, args.len() as nat);
                }
                return ParsedArgs { notices, outcome: Err(e) };
            }
        }
        proof {
            let st2 = state_of(o, expect_depth, expect_pattern, notices@);
            assert(arg_step(st, a@, i + 1 == args.len()) == Ok::<ArgState, ArgFault>(st2));
        }
        i = i + 1;
    }
    ParsedArgs { notices, outcome: Ok(o) }
}

/// Once the parse of a prefix fails, every longer prefix fails the same way.
proof fn lemma_fault_persists(args: Seq<Seq<char>>, i: nat, n: nat)
    requires
        i <= n,
        parse_prefix(args, i) is Err,
    ensures
        parse_prefix(args, n) == parse_prefix(args, i),
    decreases n - i,
{
    if i < n {
        lemma_fault_persists(args, i, (n - 1) as nat);
    }
}

/// After a search flag, the parse either has stopped or keeps that flag's mode.
proof fn lemma_search_mode_kept(args: Seq<Seq<char>>, i: int, n: nat)
    requires
        0 <= i < n <= args.len(),
        i + 1 < args.len(),
        search_flag(args[i]) is Some,
    ensures
        parse_prefix(args, n) matches Ok(st) ==> st.search == search_flag(args[i]),
    decreases n,
{
    if n > i + 1 {
        lemma_search_mode_kept(args, i, (n - 1) as nat);
    } else {
        assert(args[i].len() > 0 && args[i][0] == '-') by {
            reveal_strlit("-S");
            reveal_strlit("--search");
            reveal_strlit("--search-noext");
            reveal_strlit("--contains");
        }
    }
}

/// Two different search modes on one command line refuse it before any
/// scan, in whichever order they come and whatever stands around them.
pub proof fn lemma_conflicting_search_modes(args: Seq<Seq<char>>, i: int, j: int)
    requires
        0 <= i < j < args.len(),
        search_flag(args[i]) is Some,
        search_flag(args[j]) is Some,
        search_flag(args[i]) != search_flag(args[j]),
    ensures
        parse_prefix(args, args.len()) is Err,
{
    lemma_search_mode_kept(args, i, j as nat);
    assert(args[j].len() > 0 && args[j][0] == '-') by {
        reveal_strlit("-S");
        reveal_strlit("--search");
        reveal_strlit("--search-noext");
        reveal_strlit("--contains");
    }
    assert(parse_prefix(args, (j + 1) as nat) is Err);
    lemma_fault_persists(args, (j + 1) as nat, args.len());
}

impl ArgError {
    /// The message printed when the command line is refused, line breaks
    /// included.
    pub open spec fn message(&self) -> Seq<char> {
        match self {
            ArgError::ConflictingSearch => "Can only set one search mode at a time\nTerminating..."@,
            ArgError::MissingPattern(f) => "No Search Pattern provided after "@ + f@ + " flag\n"@,
        }
    }

    /// The message printed when the command line is refused.
    pub fn describe(&self) -> (r: String)
        ensures
            r@ == self.message(),
    {
        match self {
            ArgError::ConflictingSearch => String::from_str("Can only set one search mode at a time\nTerminating..."),
            ArgError::MissingPattern(f) => {
                let mut t = String::from_str("No Search Pattern provided after ");
                t.append(f.as_str());
                t.append(" flag\n");
                t
            },
        }
    }
}

} // verus!
