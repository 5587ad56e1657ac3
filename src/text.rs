use vstd::prelude::*;

verus! {

/// The character of a decimal digit `d < 10`.
pub open spec fn digit_char(d: nat) -> char {
    if d == 0 { '0' }
    else if d == 1 { '1' }
    else if d == 2 { '2' }
    else if d == 3 { '3' }
    else if d == 4 { '4' }
    else if d == 5 { '5' }
    else if d == 6 { '6' }
    else if d == 7 { '7' }
    else if d == 8 { '8' }
    else { '9' }
}

/// The decimal representation of `n`, most significant digit first, without leading zeros.
pub open spec fn decimal(n: nat) -> Seq<char>
    decreases n,
{
    if n < 10 {
        seq![digit_char(n)]
    } else {
        decimal(n / 10).push(digit_char(n % 10))
    }
}

fn digit_str(d: u32) -> (r: &'static str)
    requires
        d < 10,
    ensures
        r@ == seq![digit_char(d as nat)],
{
    proof {
        reveal_strlit("0");
        reveal_strlit("1");
        reveal_strlit("2");
        reveal_strlit("3");
        reveal_strlit("4");
        reveal_strlit("5");
        reveal_strlit("6");
        reveal_strlit("7");
        reveal_strlit("8");
        reveal_strlit("9");
    }
    match d {
        0 => "0",
        1 => "1",
        2 => "2",
        3 => "3",
        4 => "4",
        5 => "5",
        6 => "6",
        7 => "7",
        8 => "8",
        _ => "9",
    }
}

/// Appends the decimal representation of `n` to `s`.
pub fn push_decimal(s: &mut String, n: u32)
    ensures
        final(s)@ == old(s)@ + decimal(n as nat),
    decreases n,
{
    if n >= 10 {
        push_decimal(s, n / 10);
    }
    s.append(digit_str(n % 10));
}


/// Whether `c` is one of the ten decimal digit characters.
pub open spec fn is_digit(c: char) -> bool {
    '0' <= c && c <= '9'
}

proof fn lemma_decimal_shape(n: nat)
    ensures
        decimal(n).len() >= 1,
        n >= 10 ==> decimal(n).len() >= 2,
        forall|i: int| 0 <= i < decimal(n).len() ==> is_digit(#[trigger] decimal(n)[i]),
    decreases n,
{
    if n >= 10 {
        lemma_decimal_shape(n / 10);
    }
}

proof fn lemma_digit_char_injective(a: nat, b: nat)
    requires
        a < 10,
        b < 10,
        digit_char(a) == digit_char(b),
    ensures
        a == b,
{
}

proof fn lemma_decimal_injective(a: nat, b: nat)
    requires
        decimal(a) == decimal(b),
    ensures
        a == b,
    decreases a,
{
    lemma_decimal_shape(a);
    lemma_decimal_shape(b);
    if a >= 10 && b >= 10 {
        let da = decimal(a / 10);
        let db = decimal(b / 10);
        assert(decimal(a) == da.push(digit_char(a % 10)));
        assert(decimal(b) == db.push(digit_char(b % 10)));
        assert(da =~= decimal(a).drop_last());
        assert(db =~= decimal(b).drop_last());
        assert(decimal(a).last() == digit_char(a % 10));
        assert(decimal(b).last() == digit_char(b % 10));
        lemma_digit_char_injective(a % 10, b % 10);
        lemma_decimal_injective(a / 10, b / 10);
    } else if a < 10 && b < 10 {
        assert(decimal(a)[0] == digit_char(a));
        lemma_digit_char_injective(a, b);
    }
}

/// The log line of an error: `<subsystem>(<numeric code>): <description>`.
pub open spec fn display_text(subsystem: Seq<char>, code: nat, description: Seq<char>) -> Seq<char> {
    subsystem + seq!['('] + decimal(code) + seq![')', ':', ' '] + description
}

/// A log line is a function of its parts, and two log lines of one subsystem
/// that carry different codes differ.
pub proof fn lemma_display_text_injective(
    subsystem: Seq<char>,
    a: nat,
    desc_a: Seq<char>,
    b: nat,
    desc_b: Seq<char>,
)
    ensures
        a == b && desc_a == desc_b ==> display_text(subsystem, a, desc_a) == display_text(subsystem, b, desc_b),
        a != b ==> display_text(subsystem, a, desc_a) != display_text(subsystem, b, desc_b),
{
    if a != b && display_text(subsystem, a, desc_a) == display_text(subsystem, b, desc_b) {
        let ta = display_text(subsystem, a, desc_a);
        let da = decimal(a);
        let db = decimal(b);
        let k: int = subsystem.len() as int + 1;
        lemma_decimal_shape(a);
        lemma_decimal_shape(b);
        if da.len() < db.len() {
            assert(ta[k + da.len() as int] == ')');
            assert(display_text(subsystem, b, desc_b)[k + da.len() as int] == db[da.len() as int]);
        } else if db.len() < da.len() {
            assert(ta[k + db.len() as int] == ')');
            assert(ta[k + db.len() as int] == da[db.len() as int]);
        } else {
            assert(da =~= ta.subrange(k, k + da.len() as int));
            assert(db =~= display_text(subsystem, b, desc_b).subrange(k, k + db.len() as int));
            lemma_decimal_injective(a, b);
        }
    }
}

/// Builds the log line of an error from its subsystem's name, its numeric code
/// and its description.
pub fn format_error(subsystem: &str, code: u32, description: &str) -> (r: String)
    ensures
        r@ == display_text(subsystem@, code as nat, description@),
{
    let mut s = String::from_str(subsystem);
    s.append("(");
    push_decimal(&mut s, code);
    s.append("): ");
    s.append(description);
    proof {
        reveal_strlit("(");
        reveal_strlit("): ");
        assert(s@ =~= display_text(subsystem@, code as nat, description@));
    }
    s
}

} // verus!
