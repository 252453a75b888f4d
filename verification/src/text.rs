//! Text helpers: string comparison, and the numerals and names that the
//! layer's log lines are built from.
use vstd::prelude::*;
use vstd::string::{StringExecFns, StringSliceAdditionalSpecFns};

use crate::planner::ImageUsage;
use crate::vulkan::{
    ash_present_mode_fifo, ash_present_mode_fifo_relaxed, ash_present_mode_immediate,
    ash_present_mode_mailbox, ash_usage_color_attachment, ash_usage_depth_stencil_attachment,
    ash_usage_input_attachment, ash_usage_sampled, ash_usage_storage,
    ash_usage_transfer_dst, ash_usage_transfer_src, ash_usage_transient_attachment,
    present_mode_fifo, present_mode_fifo_relaxed, present_mode_immediate, present_mode_mailbox,
    usage_color_attachment, usage_depth_stencil_attachment, usage_input_attachment,
    usage_sampled, usage_storage, usage_transfer_dst, usage_transfer_src,
    usage_transient_attachment,
};
verus! {

/// Whether two strings hold the same characters.
///
/// The comparison runs over the UTF-8 bytes of both strings; UTF-8 encoding
/// is injective, so equal bytes mean equal characters.
pub fn str_equal(a: &str, b: &str) -> (r: bool)
    ensures
        r == (a@ == b@),
{
    let ab = a.as_bytes();
    let bb = b.as_bytes();
    proof {
        vstd::utf8::encode_utf8_decode_utf8(a@);
        vstd::utf8::encode_utf8_decode_utf8(b@);
    }
    if ab.len() != bb.len() {
        return false;
    }
    let mut i: usize = 0;
    while i < ab.len()
        invariant
            i <= ab@.len(),
            ab@.len() == bb@.len(),
            ab@ == a.spec_bytes(),
            bb@ == b.spec_bytes(),
            vstd::utf8::decode_utf8(a.spec_bytes()) == a@,
            vstd::utf8::decode_utf8(b.spec_bytes()) == b@,
            forall|j: int| 0 <= j < i ==> ab@[j] == bb@[j],
        decreases ab@.len() - i,
    {
        if ab[i] != bb[i] {
            return false;
        }
        i += 1;
    }
    assert(ab@ =~= bb@);
    true
}

/// std's `String::push`: appends one character to the end of the string.
#[verifier::external_body]
fn push_char(s: &mut String, c: char)
    ensures
        final(s)@ == old(s)@.push(c),
{
    s.push(c)
}

/// The lower-case hexadecimal digit for a value below 16.
pub open spec fn hex_digit(d: nat) -> char {
    if d < 10 {
        (48 + d) as char
    } else {
        (87 + d) as char
    }
}

/// The decimal digit for a value below 10.
pub open spec fn decimal_digit(d: nat) -> char {
    (48 + d) as char
}

/// The lower-case hexadecimal numeral of a number, without leading zeros
/// (`0` for zero).
pub open spec fn hex_numeral(v: nat) -> Seq<char>
    decreases v,
{
    if v < 16 {
        seq![hex_digit(v)]
    } else {
        hex_numeral(v / 16).push(hex_digit(v % 16))
    }
}

/// The decimal numeral of a number, without leading zeros (`0` for zero).
pub open spec fn decimal_numeral(v: nat) -> Seq<char>
    decreases v,
{
    if v < 10 {
        seq![decimal_digit(v)]
    } else {
        decimal_numeral(v / 10).push(decimal_digit(v % 10))
    }
}

/// The decimal numeral of a signed number, with a leading `-` when negative.
pub open spec fn signed_decimal_numeral(v: int) -> Seq<char> {
    if v < 0 {
        seq!['-'] + decimal_numeral((-v) as nat)
    } else {
        decimal_numeral(v as nat)
    }
}

fn digit_char(d: u8, hex: bool) -> (c: char)
    requires
        d < 16,
        !hex ==> d < 10,
    ensures
        hex ==> c == hex_digit(d as nat),
        !hex ==> c == decimal_digit(d as nat),
{
    if d < 10 {
        ((48 + d) as char)
    } else {
        ((87 + d) as char)
    }
}

fn push_hex_numeral(s: &mut String, v: u128)
    ensures
        final(s)@ == old(s)@ + hex_numeral(v as nat),
    decreases v,
{
    if v >= 16 {
        push_hex_numeral(s, v / 16);
    }
    push_char(s, digit_char((v % 16) as u8, true));
}

fn push_decimal_numeral(s: &mut String, v: u128)
    ensures
        final(s)@ == old(s)@ + decimal_numeral(v as nat),
    decreases v,
{
    if v >= 10 {
        push_decimal_numeral(s, v / 10);
    }
    push_char(s, digit_char((v % 10) as u8, false));
}

/// A value as `0x` followed by its lower-case hexadecimal digits.
pub fn format_hex(value: u64) -> (r: String)
    ensures
        r@ == seq!['0', 'x'] + hex_numeral(value as nat),
{
    let mut s = String::new();
    push_char(&mut s, '0');
    push_char(&mut s, 'x');
    push_hex_numeral(&mut s, value as u128);
    s
}

/// `width` and `height` in decimal, joined by `x`.
pub fn format_extent(width: u32, height: u32) -> (r: String)
    ensures
        r@ == decimal_numeral(width as nat) + seq!['x'] + decimal_numeral(height as nat),
{
    let mut s = String::new();
    push_decimal_numeral(&mut s, width as u128);
    push_char(&mut s, 'x');
    push_decimal_numeral(&mut s, height as u128);
    s
}

/// The label of a present mode: the name of the four core modes, the raw
/// value in decimal for any other.
pub open spec fn present_mode_label(raw: i32) -> Seq<char> {
    if raw == present_mode_immediate() {
        "IMMEDIATE"@
    } else if raw == present_mode_mailbox() {
        "MAILBOX"@
    } else if raw == present_mode_fifo() {
        "FIFO"@
    } else if raw == present_mode_fifo_relaxed() {
        "FIFO_RELAXED"@
    } else {
        signed_decimal_numeral(raw as int)
    }
}

/// The label of the present mode with raw value `raw` (`VkPresentModeKHR`).
pub fn present_mode_name(raw: i32) -> (r: String)
    ensures
        r@ == present_mode_label(raw),
{
    if raw == ash_present_mode_immediate() {
        String::from_str("IMMEDIATE")
    } else if raw == ash_present_mode_mailbox() {
        String::from_str("MAILBOX")
    } else if raw == ash_present_mode_fifo() {
        String::from_str("FIFO")
    } else if raw == ash_present_mode_fifo_relaxed() {
        String::from_str("FIFO_RELAXED")
    } else {
        let mut s = String::new();
        if raw < 0 {
            push_char(&mut s, '-');
            let magnitude: u128 = (0i128 - raw as i128) as u128;
            push_decimal_numeral(&mut s, magnitude);
        } else {
            push_decimal_numeral(&mut s, raw as u128);
        }
        s
    }
}

/// A log line: `[ppfg][level][epoch-ms] message` and a newline.
pub open spec fn log_line(level: Seq<char>, epoch_ms: nat, message: Seq<char>) -> Seq<char> {
    "[ppfg]["@ + level + "]["@ + decimal_numeral(epoch_ms) + "] "@ + message + "\n"@
}

/// Formats one line of the layer's log.
pub fn format_log_line(level: &str, epoch_ms: u128, message: &str) -> (r: String)
    ensures
        r@ == log_line(level@, epoch_ms as nat, message@),
{
    let mut s = String::from_str("[ppfg][");
    s.append(level);
    s.append("][");
    push_decimal_numeral(&mut s, epoch_ms);
    s.append("] ");
    s.append(message);
    s.append("\n");
    s
}

/// The usage bits that the log names, in the order it names them, with
/// their names.
pub open spec fn usage_bit_name(i: nat) -> (u32, Seq<char>) {
    if i == 0 {
        (usage_transfer_src(), "TRANSFER_SRC"@)
    } else if i == 1 {
        (usage_transfer_dst(), "TRANSFER_DST"@)
    } else if i == 2 {
        (usage_sampled(), "SAMPLED"@)
    } else if i == 3 {
        (usage_storage(), "STORAGE"@)
    } else if i == 4 {
        (usage_color_attachment(), "COLOR_ATTACHMENT"@)
    } else if i == 5 {
        (usage_depth_stencil_attachment(), "DEPTH_STENCIL_ATTACHMENT"@)
    } else if i == 6 {
        (usage_transient_attachment(), "TRANSIENT_ATTACHMENT"@)
    } else {
        (usage_input_attachment(), "INPUT_ATTACHMENT"@)
    }
}

/// The names of the usage bits among the first `k` named ones that are set in `bits`.
pub open spec fn usage_names_upto(bits: u32, k: nat) -> Seq<Seq<char>>
    decreases k,
{
    if k == 0 {
        seq![]
    } else {
        let prev = usage_names_upto(bits, (k - 1) as nat);
        let entry = usage_bit_name((k - 1) as nat);
        if bits & entry.0 == entry.0 {
            prev.push(entry.1)
        } else {
            prev
        }
    }
}

/// Parts joined by `|`.
pub open spec fn join_with_bar(parts: Seq<Seq<char>>) -> Seq<char>
    decreases parts.len(),
{
    if parts.len() == 0 {
        seq![]
    } else if parts.len() == 1 {
        parts[0]
    } else {
        join_with_bar(parts.drop_last()) + seq!['|'] + parts.last()
    }
}

/// The log description of a usage mask: the names of its named bits joined
/// by `|` (or `0` when none is set), then the whole mask in hexadecimal in
/// parentheses.
pub open spec fn usage_description(bits: u32) -> Seq<char> {
    let names = usage_names_upto(bits, 8);
    (if names.len() == 0 {
        seq!['0']
    } else {
        join_with_bar(names)
    }) + " ("@ + seq!['0', 'x'] + hex_numeral(bits as nat) + seq![')']
}

fn usage_bit_name_at(i: usize) -> (r: (u32, &'static str))
    requires
        i < 8,
    ensures
        r.0 == usage_bit_name(i as nat).0,
        r.1@ == usage_bit_name(i as nat).1,
{
    if i == 0 {
        (ash_usage_transfer_src(), "TRANSFER_SRC")
    } else if i == 1 {
        (ash_usage_transfer_dst(), "TRANSFER_DST")
    } else if i == 2 {
        (ash_usage_sampled(), "SAMPLED")
    } else if i == 3 {
        (ash_usage_storage(), "STORAGE")
    } else if i == 4 {
        (ash_usage_color_attachment(), "COLOR_ATTACHMENT")
    } else if i == 5 {
        (ash_usage_depth_stencil_attachment(), "DEPTH_STENCIL_ATTACHMENT")
    } else if i == 6 {
        (ash_usage_transient_attachment(), "TRANSIENT_ATTACHMENT")
    } else {
        (ash_usage_input_attachment(), "INPUT_ATTACHMENT")
    }
}

proof fn lemma_join_push(parts: Seq<Seq<char>>, name: Seq<char>)
    ensures
        join_with_bar(parts.push(name)) == (if parts.len() == 0 {
            name
        } else {
            join_with_bar(parts) + seq!['|'] + name
        }),
{
    assert(parts.push(name).drop_last() =~= parts);
}

/// Describes a swapchain's usage mask for the log.
pub fn usage_flags(flags: ImageUsage) -> (r: String)
    ensures
        r@ == usage_description(flags@),
{
    let bits = flags.as_raw();
    let mut parts = String::new();
    let mut count: usize = 0;
    let mut i: usize = 0;
    while i < 8
        invariant
            i <= 8,
            count <= i,
            bits == flags@,
            count == usage_names_upto(bits, i as nat).len(),
            parts@ == join_with_bar(usage_names_upto(bits, i as nat)),
        decreases 8 - i,
    {
        let (bit, name) = usage_bit_name_at(i);
        proof {
            assert(usage_names_upto(bits, (i + 1) as nat) == (if bits & bit == bit {
                usage_names_upto(bits, i as nat).push(name@)
            } else {
                usage_names_upto(bits, i as nat)
            }));
        }
        if bits & bit == bit {
            proof {
                lemma_join_push(usage_names_upto(bits, i as nat), name@);
            }
            if count > 0 {
                push_char(&mut parts, '|');
            }
            parts.append(name);
            count = count + 1;
        }
        i += 1;
    }
    if count == 0 {
        push_char(&mut parts, '0');
    }
    parts.append(" (");
    let hex = format_hex(bits as u64);
    parts.append(hex.as_str());
    push_char(&mut parts, ')');
    parts
}

} // verus!
