//! The operand parser: one textual token becomes exactly one typed operand.
//! Unrecognised tokens fall back to a label reference, so parsing a token
//! never fails; an ill-formed register or hex literal simply surfaces later
//! as an unresolved label.

use vstd::prelude::*;
use vstd::string::StrSliceExecFns;

use crate::instructions::text::{
    before_comment, before_comment_str, char_pos, eq_str, find_char, lemma_char_pos_range, trim,
    trim_str,
};

verus! {

/// A typed operand of one instruction.
#[derive(Clone, Hash, Eq, PartialEq, Debug)]
pub enum OpParam {
    /// General register `V0`..`VF`.
    Register(u8),
    /// Immediate constant or resolved address.
    Variable(u16),
    /// The index register `I`.
    RegisterI,
    /// The memory cell addressed by `I`, written `[I]`.
    DerefI,
    /// The delay timer `DT`.
    Timer,
    /// The sound timer `ST`.
    AudioTimer,
    /// The keypad-wait pseudo-operand `K`.
    Keyboard,
    /// An operand slot that was not supplied.
    Blank,
    /// A still-unresolved reference to a label.
    Label(String),
    /// The font-sprite-table pseudo-operand `F`.
    Fontset,
    /// The BCD-digits pseudo-operand `B`.
    Digits,
}

/// The mathematical shape of an operand, with label text as a plain
/// character sequence.
pub ghost enum OpModel {
    Register(u8),
    Variable(u16),
    RegisterI,
    DerefI,
    Timer,
    AudioTimer,
    Keyboard,
    Blank,
    Label(Seq<char>),
    Fontset,
    Digits,
}

impl View for OpParam {
    type V = OpModel;

    open spec fn view(&self) -> OpModel {
        match self {
            OpParam::Register(n) => OpModel::Register(*n),
            OpParam::Variable(v) => OpModel::Variable(*v),
            OpParam::RegisterI => OpModel::RegisterI,
            OpParam::DerefI => OpModel::DerefI,
            OpParam::Timer => OpModel::Timer,
            OpParam::AudioTimer => OpModel::AudioTimer,
            OpParam::Keyboard => OpModel::Keyboard,
            OpParam::Blank => OpModel::Blank,
            OpParam::Label(s) => OpModel::Label(s@),
            OpParam::Fontset => OpModel::Fontset,
            OpParam::Digits => OpModel::Digits,
        }
    }
}

/// The label text carried by a label-reference operand, if it is one.
pub open spec fn label_of(op: OpModel) -> Option<Seq<char>> {
    match op {
        OpModel::Label(n) => Some(n),
        _ => None,
    }
}

/// The label name held by a label-reference operand, if it is one.
pub fn op_label<'a>(op: &'a OpParam) -> (r: Option<&'a String>)
    ensures
        match r {
            Some(s) => label_of(op@) == Some(s@),
            None => label_of(op@) is None,
        },
{
    match op {
        OpParam::Label(s) => Some(s),
        _ => None,
    }
}

/// Replaces a label-reference operand by its resolved address when the table
/// knows the name; every other operand is left unchanged.
pub open spec fn subst_op(op: OpModel, m: Map<Seq<char>, u16>) -> OpModel {
    match op {
        OpModel::Label(name) => if m.dom().contains(name) {
            OpModel::Variable(m[name])
        } else {
            op
        },
        _ => op,
    }
}

pub open spec fn is_hex_digit(c: char) -> bool {
    ('0' <= c && c <= '9') || ('A' <= c && c <= 'F') || ('a' <= c && c <= 'f')
}

/// The value of one hex digit.
pub open spec fn hex_val(c: char) -> int {
    if '0' <= c && c <= '9' {
        c as u32 - 48
    } else if 'A' <= c && c <= 'F' {
        c as u32 - 55
    } else {
        c as u32 - 87
    }
}

pub open spec fn all_hex(ds: Seq<char>) -> bool {
    forall|k: int| 0 <= k < ds.len() ==> is_hex_digit(#[trigger] ds[k])
}

/// The value of a sequence of hex digits, most significant first.
pub open spec fn hex_value(ds: Seq<char>) -> int
    decreases ds.len(),
{
    if ds.len() == 0 {
        0
    } else {
        hex_value(ds.drop_last()) * 16 + hex_val(ds.last())
    }
}

pub open spec fn pow16(n: nat) -> int
    decreases n,
{
    if n == 0 {
        1
    } else {
        16 * pow16((n - 1) as nat)
    }
}

/// What one trimmed token denotes: the literal special operands, a register
/// `V` plus one hex digit, a hex constant `0x` with one to four digits, the
/// absent operand for an empty token, and a label reference for everything
/// else.
pub open spec fn op_parse(t: Seq<char>) -> OpModel {
    if t == "K"@ {
        OpModel::Keyboard
    } else if t == "DT"@ {
        OpModel::Timer
    } else if t == "ST"@ {
        OpModel::AudioTimer
    } else if t == "I"@ {
        OpModel::RegisterI
    } else if t == "[I]"@ {
        OpModel::DerefI
    } else if t == "B"@ {
        OpModel::Digits
    } else if t == "F"@ {
        OpModel::Fontset
    } else if t.len() >= 2 && t[0] == 'V' && is_hex_digit(t[1]) {
        OpModel::Register(hex_val(t[1]) as u8)
    } else if 3 <= t.len() <= 6 && t[0] == '0' && (t[1] == 'x' || t[1] == 'X') && all_hex(
        t.subrange(2, t.len() as int),
    ) {
        OpModel::Variable(hex_value(t.subrange(2, t.len() as int)) as u16)
    } else if t.len() == 0 {
        OpModel::Blank
    } else {
        OpModel::Label(t)
    }
}

fn is_hex_digit_char(c: char) -> (r: bool)
    ensures
        r == is_hex_digit(c),
{
    let u = c as u32;
    (48 <= u && u <= 57) || (65 <= u && u <= 70) || (97 <= u && u <= 102)
}

fn hex_val_char(c: char) -> (r: u8)
    requires
        is_hex_digit(c),
    ensures
        r as int == hex_val(c),
        r < 16,
{
    let u = c as u32;
    if 48 <= u && u <= 57 {
        (u - 48) as u8
    } else if 65 <= u && u <= 70 {
        (u - 55) as u8
    } else {
        (u - 87) as u8
    }
}

impl OpParam {
    /// Parses one trimmed token into an operand; never fails.
    pub fn parse(instr: &str) -> (r: OpParam)
        ensures
            r@ == op_parse(instr@),
    {
        if eq_str(instr, "K") {
            return OpParam::Keyboard;
        }
        if eq_str(instr, "DT") {
            return OpParam::Timer;
        }
        if eq_str(instr, "ST") {
            return OpParam::AudioTimer;
        }
        if eq_str(instr, "I") {
            return OpParam::RegisterI;
        }
        if eq_str(instr, "[I]") {
            return OpParam::DerefI;
        }
        if eq_str(instr, "B") {
            return OpParam::Digits;
        }
        if eq_str(instr, "F") {
            return OpParam::Fontset;
        }
        let n = instr.unicode_len();
        if n >= 2 && instr.get_char(0) == 'V' {
            let c1 = instr.get_char(1);
            if is_hex_digit_char(c1) {
                return OpParam::Register(hex_val_char(c1));
            }
        }
        if n >= 3 && n <= 6 && instr.get_char(0) == '0' {
            let c1 = instr.get_char(1);
            if c1 == 'x' || c1 == 'X' {
                let ghost digits = instr@.subrange(2, n as int);
                let mut acc: u16 = 0;
                let mut k: usize = 2;
                let mut ok = true;
                while k < n
                    invariant
                        n == instr@.len(),
                        3 <= n <= 6,
                        2 <= k <= n,
                        digits == instr@.subrange(2, n as int),
                        ok ==> all_hex(instr@.subrange(2, k as int)),
                        ok ==> acc as int == hex_value(instr@.subrange(2, k as int)),
                        ok ==> (acc as int) < pow16((k - 2) as nat),
                        !ok ==> k < n && !is_hex_digit(instr@[k as int]),
                    ensures
                        2 <= k <= n,
                        ok ==> k == n && all_hex(instr@.subrange(2, k as int)) && acc as int
                            == hex_value(instr@.subrange(2, k as int)),
                        !ok ==> k < n && !is_hex_digit(instr@[k as int]),
                    decreases n - k,
                {
                    let c = instr.get_char(k);
                    if is_hex_digit_char(c) {
                        let v = hex_val_char(c);
                        proof {
                            let pre = instr@.subrange(2, k as int);
                            let post = instr@.subrange(2, k as int + 1);
                            assert(post.drop_last() =~= pre);
                            assert(post.last() == instr@[k as int]);
                            assert(pow16((k - 2) as nat) * 16 == pow16((k - 1) as nat));
                            assert(pow16(0) == 1);
                            assert(pow16(1) == 16);
                            assert(pow16(2) == 256);
                            assert(pow16(3) == 4096);
                            assert(pow16(4) == 65536);
                        }
                        acc = acc * 16 + v as u16;
                        k = k + 1;
                    } else {
                        ok = false;
                        break;
                    }
                }
                if ok {
                    proof {
                        assert(instr@.subrange(2, k as int) =~= digits);
                    }
                    return OpParam::Variable(acc);
                }
                proof {
                    assert(!is_hex_digit(digits[k - 2]));
                    assert(!all_hex(digits));
                }
            }
        }
        if n == 0 {
            return OpParam::Blank;
        }
        OpParam::Label(instr.to_owned())
    }
}

/// The argument text with its trailing comment stripped and the remainder
/// trimmed, ready for splitting on commas.
pub open spec fn clean_args(a: Seq<char>) -> Seq<char> {
    trim(before_comment(a))
}

/// The one operand of a single-operand argument list: the text before the
/// first comma, trimmed; anything after a comma is ignored.
pub open spec fn arg1_model(a: Seq<char>) -> OpModel {
    let w = clean_args(a);
    op_parse(trim(w.subrange(0, char_pos(w, 0, ','))))
}

/// The two operands of a two-operand argument list, split at the first
/// comma; a missing second operand is the absent operand.
pub open spec fn args2_model(a: Seq<char>) -> (OpModel, OpModel) {
    let w = clean_args(a);
    let p = char_pos(w, 0, ',');
    if p == w.len() {
        (op_parse(trim(w)), OpModel::Blank)
    } else {
        (op_parse(trim(w.subrange(0, p))), op_parse(trim(w.subrange(p + 1, w.len() as int))))
    }
}

/// The three operands of a three-operand argument list, split at the first
/// two commas; missing trailing operands are absent operands.
pub open spec fn args3_model(a: Seq<char>) -> (OpModel, OpModel, OpModel) {
    let w = clean_args(a);
    let p = char_pos(w, 0, ',');
    if p == w.len() {
        (op_parse(trim(w)), OpModel::Blank, OpModel::Blank)
    } else {
        let r = w.subrange(p + 1, w.len() as int);
        let q = char_pos(r, 0, ',');
        if q == r.len() {
            (op_parse(trim(w.subrange(0, p))), op_parse(trim(r)), OpModel::Blank)
        } else {
            (
                op_parse(trim(w.subrange(0, p))),
                op_parse(trim(r.subrange(0, q))),
                op_parse(trim(r.subrange(q + 1, r.len() as int))),
            )
        }
    }
}

/// Splits an argument text into its one operand.
pub fn split_args1(a: &str) -> (r: OpParam)
    ensures
        r@ == arg1_model(a@),
{
    let w = trim_str(before_comment_str(a));
    let p = find_char(w, 0, ',');
    proof {
        lemma_char_pos_range(w@, 0, ',');
    }
    OpParam::parse(trim_str(w.substring_char(0, p)))
}

/// Splits an argument text into its two operands.
pub fn split_args2(a: &str) -> (r: (OpParam, OpParam))
    ensures
        (r.0@, r.1@) == args2_model(a@),
{
    let w = trim_str(before_comment_str(a));
    let n = w.unicode_len();
    let p = find_char(w, 0, ',');
    proof {
        lemma_char_pos_range(w@, 0, ',');
    }
    if p == n {
        proof {
            assert(w@.subrange(0, n as int) =~= w@);
        }
        (OpParam::parse(trim_str(w)), OpParam::Blank)
    } else {
        let first = OpParam::parse(trim_str(w.substring_char(0, p)));
        let second = OpParam::parse(trim_str(w.substring_char(p + 1, n)));
        (first, second)
    }
}

/// Splits an argument text into its three operands.
pub fn split_args3(a: &str) -> (r: (OpParam, OpParam, OpParam))
    ensures
        (r.0@, r.1@, r.2@) == args3_model(a@),
{
    let w = trim_str(before_comment_str(a));
    let n = w.unicode_len();
    let p = find_char(w, 0, ',');
    proof {
        lemma_char_pos_range(w@, 0, ',');
    }
    if p == n {
        proof {
            assert(w@.subrange(0, n as int) =~= w@);
        }
        return (OpParam::parse(trim_str(w)), OpParam::Blank, OpParam::Blank);
    }
    let first = OpParam::parse(trim_str(w.substring_char(0, p)));
    let rest = w.substring_char(p + 1, n);
    let m = rest.unicode_len();
    let q = find_char(rest, 0, ',');
    proof {
        lemma_char_pos_range(rest@, 0, ',');
    }
    if q == m {
        proof {
            assert(rest@.subrange(0, m as int) =~= rest@);
        }
        (first, OpParam::parse(trim_str(rest)), OpParam::Blank)
    } else {
        let second = OpParam::parse(trim_str(rest.substring_char(0, q)));
        let third = OpParam::parse(trim_str(rest.substring_char(q + 1, m)));
        (first, second, third)
    }
}

} // verus!


