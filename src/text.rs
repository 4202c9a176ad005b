use vstd::prelude::*;

verus! {

/// The decimal digit for `d` (taken modulo ten).
pub open spec fn digit_char(d: nat) -> char {
    let d = d % 10;
    if d == 0 { '0' }
    else if d == 1 { '1' }
    else if d == 2 { '2' }
    else if d == 3 { '3' }
    else if d == 4 { '4' }
    else if d == 5 { '5' }
    else if d == 6 { '6' }
    else if d == 7 { '7' }
    else if d == 8 { '8' }
    else { '9' }
}

/// The decimal digits of `n`, with no leading zero.
pub open spec fn digits(n: nat) -> Seq<char>
    decreases n,
{
    if n < 10 {
        seq![digit_char(n)]
    } else {
        digits(n / 10).push(digit_char(n % 10))
    }
}

/// Exactly three digits for `m`, zero-padded on the left.
pub open spec fn three_digits(m: nat) -> Seq<char> {
    seq![digit_char(m / 100), digit_char(m / 10), digit_char(m)]
}

/// `n` in decimal with a comma between each group of three digits, counted
/// from the right (`1,234,567`).
pub open spec fn thousands(n: nat) -> Seq<char>
    decreases n,
{
    if n < 1000 {
        digits(n)
    } else {
        thousands(n / 1000) + seq![','] + three_digits(n % 1000)
    }
}

/// `n` spaces.
pub open spec fn spaces(n: nat) -> Seq<char> {
    Seq::new(n, |i: int| ' ')
}

/// `s` right-aligned in a column of `w` characters; unchanged when it is
/// already that wide.
pub open spec fn pad_left(s: Seq<char>, w: nat) -> Seq<char> {
    if s.len() >= w {
        s
    } else {
        spaces((w - s.len()) as nat) + s
    }
}

/// The `rwx` triplet for the three permission bits of `m`.
pub open spec fn rwx(m: nat) -> Seq<char> {
    seq![
        if (m / 4) % 2 == 1 { 'r' } else { '-' },
        if (m / 2) % 2 == 1 { 'w' } else { '-' },
        if m % 2 == 1 { 'x' } else { '-' },
    ]
}

/// The owner, group and other triplets of a permission mode.
pub open spec fn permission_text(mode: nat) -> Seq<char> {
    rwx((mode / 64) % 8) + rwx((mode / 8) % 8) + rwx(mode % 8)
}

fn digit_str(d: u64) -> (r: &'static str)
    requires
        d < 10,
    ensures
        r@ == seq![digit_char(d as nat)],
{
    proof {
        reveal_strlit("0");
        reveal_strlit("1");
        reveal_strlit("2");
        reveal_strlit("3");
        reveal_strlit("4");
        reveal_strlit("5");
        reveal_strlit("6");
        reveal_strlit("7");
        reveal_strlit("8");
        reveal_strlit("9");
    }
    if d == 0 { "0" }
    else if d == 1 { "1" }
    else if d == 2 { "2" }
    else if d == 3 { "3" }
    else if d == 4 { "4" }
    else if d == 5 { "5" }
    else if d == 6 { "6" }
    else if d == 7 { "7" }
    else if d == 8 { "8" }
    else { "9" }
}

fn decimal(n: u64) -> (r: String)
    ensures
        r@ == digits(n as nat),
    decreases n,
{
    if n < 10 {
        String::from_str(digit_str(n))
    } else {
        let mut s = decimal(n / 10);
        s.append(digit_str(n % 10));
        proof {
            assert(digit_char((n % 10) as nat) == digit_char(n as nat % 10));
        }
        s
    }
}

/// Formats `n` with a comma between each group of three digits.
pub fn int_to_formatted_slice(n: u64) -> (r: String)
    ensures
        r@ == thousands(n as nat),
    decreases n,
{
    if n < 1000 {
        decimal(n)
    } else {
        let mut s = int_to_formatted_slice(n / 1000);
        let m = n % 1000;
        proof {
            reveal_strlit(",");
        }
        s.append(",");
        s.append(digit_str(m / 100));
        s.append(digit_str((m / 10) % 10));
        s.append(digit_str(m % 10));
        proof {
            assert(digit_char((m / 100) as nat) == digit_char(m as nat / 100));
            assert(digit_char(((m / 10) % 10) as nat) == digit_char(m as nat / 10));
            assert(digit_char((m % 10) as nat) == digit_char(m as nat));
            assert(s@ =~= thousands(n as nat));
        }
        s
    }
}

/// A string of `n` spaces.
pub fn blank(n: usize) -> (r: String)
    ensures
        r@ == spaces(n as nat),
{
    let mut s = String::new();
    let mut i: usize = 0;
    while i < n
        invariant
            i <= n,
            s@ == spaces(i as nat),
        decreases n - i,
    {
        s.append(" ");
        i = i + 1;
        proof {
            reveal_strlit(" ");
            assert(s@ =~= spaces(i as nat));
        }
    }
    s
}

/// `s` right-aligned in a column of `w` characters.
pub fn right_align(s: &str, w: usize) -> (r: String)
    ensures
        r@ == pad_left(s@, w as nat),
{
    let n = s.unicode_len();
    if n >= w {
        String::from_str(s)
    } else {
        let mut r = blank(w - n);
        r.append(s);
        r
    }
}

fn rwx_str(m: u32) -> (r: &'static str)
    requires
        m < 8,
    ensures
        r@ == rwx(m as nat),
{
    proof {
        reveal_strlit("---");
        reveal_strlit("--x");
        reveal_strlit("-w-");
        reveal_strlit("-wx");
        reveal_strlit("r--");
        reveal_strlit("r-x");
        reveal_strlit("rw-");
        reveal_strlit("rwx");
    }
    let r = if m == 0 { "---" }
    else if m == 1 { "--x" }
    else if m == 2 { "-w-" }
    else if m == 3 { "-wx" }
    else if m == 4 { "r--" }
    else if m == 5 { "r-x" }
    else if m == 6 { "rw-" }
    else { "rwx" };
    assert(r@ =~= rwx(m as nat));
    r
}

/// The `rwxrwxrwx` form of the permission bits of `mode`.
pub fn permissions_text(mode: u32) -> (r: String)
    ensures
        r@ == permission_text(mode as nat),
{
    let mut s = String::from_str(rwx_str((mode / 64) % 8));
    s.append(rwx_str((mode / 8) % 8));
    s.append(rwx_str(mode % 8));
    s
}

} // verus!

verus! {

/// The texts of a sequence of strings.
pub open spec fn texts(v: Seq<String>) -> Seq<Seq<char>> {
    v.map_values(|s: String| s@)
}

/// Appends `s` to `v`.
pub fn emit(v: &mut Vec<String>, s: String)
    ensures
        texts(final(v)@) == texts(old(v)@).push(s@),
{
    v.push(s);
    assert(texts(final(v)@) =~= texts(old(v)@).push(s@));
}

/// Four spaces for each level.
pub fn indentation(level: u64) -> (r: String)
    ensures
        r@ == spaces(4 * level as nat),
{
    let mut s = String::new();
    let mut i: u64 = 0;
    while i < level
        invariant
            i <= level,
            s@ == spaces(4 * i as nat),
        decreases level - i,
    {
        s.append("    ");
        i = i + 1;
        proof {
            reveal_strlit("    ");
            assert(s@ =~= spaces(4 * i as nat));
        }
    }
    s
}

} // verus!
