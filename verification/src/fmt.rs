use vstd::prelude::*;

use crate::pv_table::PVTable;
use crate::types::MoveData;
use crate::{MATE, MATE_IN};

verus! {

/// The decimal digit character of a value below ten.
pub open spec fn spec_digit(d: int) -> char {
    if d == 0 {
        '0'
    } else if d == 1 {
        '1'
    } else if d == 2 {
        '2'
    } else if d == 3 {
        '3'
    } else if d == 4 {
        '4'
    } else if d == 5 {
        '5'
    } else if d == 6 {
        '6'
    } else if d == 7 {
        '7'
    } else if d == 8 {
        '8'
    } else {
        '9'
    }
}

/// Decimal digits of a non-negative value, most significant first.
pub open spec fn spec_dec(n: int) -> Seq<char>
    decreases n,
{
    if n < 10 {
        seq![spec_digit(n)]
    } else {
        spec_dec(n / 10) + seq![spec_digit(n % 10)]
    }
}

/// Decimal text of a value, with a leading minus sign when negative.
pub open spec fn spec_int_str(n: int) -> Seq<char> {
    if n < 0 {
        seq!['-'] + spec_dec(-n)
    } else {
        spec_dec(n)
    }
}

/// One decimal digit as text.
fn digit_str(d: i32) -> (r: &'static str)
    requires
        0 <= d < 10,
    ensures
        r@ == seq![spec_digit(d as int)],
{
    proof {
        reveal_strlit("0");
        reveal_strlit("1");
        reveal_strlit("2");
        reveal_strlit("3");
        reveal_strlit("4");
        reveal_strlit("5");
        reveal_strlit("6");
        reveal_strlit("7");
        reveal_strlit("8");
        reveal_strlit("9");
    }
    let r = match d {
        0 => "0",
        1 => "1",
        2 => "2",
        3 => "3",
        4 => "4",
        5 => "5",
        6 => "6",
        7 => "7",
        8 => "8",
        _ => "9",
    };
    proof {
        assert(r@ =~= seq![spec_digit(d as int)]);
    }
    r
}

/// Decimal text of a non-negative value.
fn dec_string(n: i32) -> (r: String)
    requires
        n >= 0,
    ensures
        r@ == spec_dec(n as int),
    decreases n,
{
    if n < 10 {
        let r = String::from_str(digit_str(n));
        proof {
            assert(r@ =~= spec_dec(n as int));
        }
        r
    } else {
        let mut r = dec_string(n / 10);
        r.append(digit_str(n % 10));
        proof {
            assert(r@ =~= spec_dec(n as int));
        }
        r
    }
}

/// Decimal text of a value that is not the minimum of its type.
pub fn int_to_string(n: i32) -> (r: String)
    requires
        n > i32::MIN,
    ensures
        r@ == spec_int_str(n as int),
{
    if n < 0 {
        proof {
            reveal_strlit("-");
        }
        let mut r = String::from_str("-");
        let rest = dec_string(-n);
        r.append(rest.as_str());
        proof {
            assert(r@ =~= spec_int_str(n as int));
        }
        r
    } else {
        dec_string(n)
    }
}

/// The text of a score as the UCI protocol wants it: `cp <n>` for a normal
/// score and `mate <n>` for a forced mate, `n` counted in moves, negative
/// when the side to move is being mated.
pub open spec fn spec_format_score(score: int) -> Seq<char> {
    if score >= MATE_IN {
        let m = MATE - score;
        "mate "@ + spec_int_str(m / 2 + m % 2)
    } else if score <= -MATE_IN {
        let m = MATE + score;
        "mate "@ + spec_int_str(-(m / 2 + m % 2))
    } else {
        "cp "@ + spec_int_str(score)
    }
}

/// Formats a score for a UCI info line.
pub fn format_score(score: i32) -> (r: String)
    requires
        -MATE <= score <= MATE,
    ensures
        r@ == spec_format_score(score as int),
{
    proof {
        reveal_strlit("mate ");
        reveal_strlit("cp ");
    }
    if score >= MATE_IN {
        let m: i32 = MATE - score;
        let mut r = String::from_str("mate ");
        let count = int_to_string(m / 2 + m % 2);
        r.append(count.as_str());
        proof {
            assert(r@ =~= spec_format_score(score as int));
        }
        r
    } else if score <= -MATE_IN {
        let m: i32 = MATE + score;
        let mut r = String::from_str("mate ");
        let count = int_to_string(-(m / 2 + m % 2));
        r.append(count.as_str());
        proof {
            assert(r@ =~= spec_format_score(score as int));
        }
        r
    } else {
        let mut r = String::from_str("cp ");
        let num = int_to_string(score);
        r.append(num.as_str());
        proof {
            assert(r@ =~= spec_format_score(score as int));
        }
        r
    }
}

/// The file letter of a square.
pub open spec fn spec_file_char(f: int) -> char {
    if f == 0 {
        'a'
    } else if f == 1 {
        'b'
    } else if f == 2 {
        'c'
    } else if f == 3 {
        'd'
    } else if f == 4 {
        'e'
    } else if f == 5 {
        'f'
    } else if f == 6 {
        'g'
    } else {
        'h'
    }
}

/// The piece letter of a promotion piece code.
pub open spec fn spec_promo_suffix(p: int) -> Seq<char> {
    if p == 1 {
        seq!['n']
    } else if p == 2 {
        seq!['b']
    } else if p == 3 {
        seq!['r']
    } else if p == 4 {
        seq!['q']
    } else {
        Seq::<char>::empty()
    }
}

/// A move in long algebraic notation: origin square, destination square,
/// and the promotion piece letter if there is one.
pub open spec fn spec_move_str(mv: MoveData) -> Seq<char> {
    seq![
        spec_file_char(mv.from as int % 8),
        spec_digit(mv.from as int / 8 + 1),
        spec_file_char(mv.to as int % 8),
        spec_digit(mv.to as int / 8 + 1),
    ] + spec_promo_suffix(mv.promo as int)
}

/// The file letter of a square as text.
fn file_str(f: u8) -> (r: &'static str)
    requires
        f < 8,
    ensures
        r@ == seq![spec_file_char(f as int)],
{
    proof {
        reveal_strlit("a");
        reveal_strlit("b");
        reveal_strlit("c");
        reveal_strlit("d");
        reveal_strlit("e");
        reveal_strlit("f");
        reveal_strlit("g");
        reveal_strlit("h");
    }
    let r = match f {
        0 => "a",
        1 => "b",
        2 => "c",
        3 => "d",
        4 => "e",
        5 => "f",
        6 => "g",
        _ => "h",
    };
    proof {
        assert(r@ =~= seq![spec_file_char(f as int)]);
    }
    r
}

/// The promotion letter of a piece code as text.
fn promo_str(p: u8) -> (r: &'static str)
    requires
        p <= 4,
    ensures
        r@ == spec_promo_suffix(p as int),
{
    proof {
        reveal_strlit("");
        reveal_strlit("n");
        reveal_strlit("b");
        reveal_strlit("r");
        reveal_strlit("q");
    }
    let r = match p {
        1 => "n",
        2 => "b",
        3 => "r",
        4 => "q",
        _ => "",
    };
    proof {
        assert(r@ =~= spec_promo_suffix(p as int));
    }
    r
}

/// Formats a move in long algebraic notation.
pub fn move_to_string(mv: MoveData) -> (r: String)
    requires
        mv.wf(),
    ensures
        r@ == spec_move_str(mv),
{
    let mut r = String::from_str(file_str(mv.from % 8));
    r.append(digit_str(mv.from as i32 / 8 + 1));
    r.append(file_str(mv.to % 8));
    r.append(digit_str(mv.to as i32 / 8 + 1));
    r.append(promo_str(mv.promo));
    proof {
        assert(r@ =~= spec_move_str(mv));
    }
    r
}

/// The text of a line of moves, each preceded by one space.
pub open spec fn spec_pv_prefix(moves: Seq<MoveData>, n: int) -> Seq<char>
    decreases n,
{
    if n <= 0 {
        Seq::<char>::empty()
    } else {
        spec_pv_prefix(moves, n - 1) + seq![' '] + spec_move_str(moves[n - 1])
    }
}

/// Formats a principal variation as the tail of a UCI info line.
pub fn pv_string(pv: &PVTable) -> (r: String)
    requires
        pv.wf(),
    ensures
        r@ == spec_pv_prefix(pv.line(), pv.line().len() as int),
{
    proof {
        reveal_strlit(" ");
    }
    let mut r = String::new();
    let mut i: usize = 0;
    proof {
        assert(r@ =~= spec_pv_prefix(pv.line(), 0));
    }
    while i < pv.length
        invariant
            pv.wf(),
            i <= pv.length,
            r@ == spec_pv_prefix(pv.line(), i as int),
        decreases pv.length - i,
    {
        r.append(" ");
        let m = move_to_string(pv.table[i]);
        r.append(m.as_str());
        proof {
            reveal_strlit(" ");
            assert(pv.line()[i as int] == pv.table@[i as int]);
            assert(r@ =~= spec_pv_prefix(pv.line(), i + 1));
        }
        i += 1;
    }
    r
}

} // verus!
