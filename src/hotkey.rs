//! Hotkey descriptions such as `ctrl+shift+l`: parsing them into a modifier
//! mask and a trigger key, and formatting a binding back to text.
use vstd::prelude::*;
use crate::keys::{
    MOD_ALT, MOD_CONTROL, MOD_SHIFT, MOD_WIN, VK_BACK, VK_DELETE, VK_DOWN, VK_END, VK_ESCAPE,
    VK_F1, VK_F24, VK_HOME, VK_INSERT, VK_LEFT, VK_NEXT, VK_NUMLOCK, VK_PAUSE, VK_PRIOR,
    VK_RETURN, VK_RIGHT, VK_SCROLL, VK_SNAPSHOT, VK_SPACE, VK_TAB, VK_UP,
};
use crate::text::{
    chars_of, has_no_plus, is_white_space, join_plus, lemma_split_join, range_is, split_plus, trim,
    trim_bounds,
};
use vstd::slice::slice_to_vec;

verus! {

/// The trigger key used when the configured text yields none: `B`.
pub const DEFAULT_TRIGGER: u32 = 0x42;

/// What one `+`-separated token of a hotkey description stands for.
#[derive(Clone, Copy)]
pub enum TokenMeaning {
    /// A modifier flag (`MOD_CONTROL`, `MOD_ALT`, `MOD_SHIFT` or `MOD_WIN`).
    Modifier(u32),
    /// A trigger key, by virtual-key code.
    Key(u32),
    /// Not a known modifier or key; it is skipped.
    Ignored,
}

/// The trigger key found so far while reading a description.
#[derive(Clone, Copy)]
pub enum Trigger {
    Unset,
    Found(u32),
    /// Two or more tokens named a key.
    Conflict,
}

/// The modifiers and trigger key read so far.
#[derive(Clone, Copy)]
pub struct ParseState {
    pub control: bool,
    pub alt: bool,
    pub shift: bool,
    pub win: bool,
    pub trigger: Trigger,
}

pub open spec fn is_ascii_digit(c: char) -> bool {
    0x30 <= c as u32 <= 0x39
}

pub open spec fn is_ascii_letter(c: char) -> bool {
    (0x41 <= c as u32 <= 0x5A) || (0x61 <= c as u32 <= 0x7A)
}

/// The code of `c` once an ASCII lower-case letter is made upper case.
pub open spec fn ascii_upper_code(c: char) -> u32 {
    if 0x61 <= c as u32 <= 0x7A {
        (c as u32 - 0x20) as u32
    } else {
        c as u32
    }
}

pub open spec fn digit_value(c: char) -> int {
    c as u32 - 0x30
}

/// `F<n>`, for `n` from 1 to 24.
pub open spec fn function_key(n: int) -> TokenMeaning {
    if 1 <= n <= 24 {
        TokenMeaning::Key((VK_F1 + n - 1) as u32)
    } else {
        TokenMeaning::Ignored
    }
}

/// A token of two or three characters that starts with `f`: the function key
/// numbered by the rest, when the rest is a decimal number.
pub open spec fn function_key_token(t: Seq<char>) -> TokenMeaning {
    if t.len() == 2 && is_ascii_digit(t[1]) {
        function_key(digit_value(t[1]))
    } else if t.len() == 3 && is_ascii_digit(t[1]) && is_ascii_digit(t[2]) {
        function_key(10 * digit_value(t[1]) + digit_value(t[2]))
    } else {
        TokenMeaning::Ignored
    }
}

/// The table of named keys, with their accepted spellings.
pub open spec fn named_key(t: Seq<char>) -> Option<u32> {
    if t == seq!['s', 'p', 'a', 'c', 'e'] {
        Some(VK_SPACE)
    } else if t == seq!['e', 'n', 't', 'e', 'r'] || t == seq!['r', 'e', 't', 'u', 'r', 'n'] {
        Some(VK_RETURN)
    } else if t == seq!['e', 's', 'c', 'a', 'p', 'e'] || t == seq!['e', 's', 'c'] {
        Some(VK_ESCAPE)
    } else if t == seq!['t', 'a', 'b'] {
        Some(VK_TAB)
    } else if t == seq!['b', 'a', 'c', 'k', 's', 'p', 'a', 'c', 'e'] {
        Some(VK_BACK)
    } else if t == seq!['d', 'e', 'l', 'e', 't', 'e'] || t == seq!['d', 'e', 'l'] {
        Some(VK_DELETE)
    } else if t == seq!['i', 'n', 's', 'e', 'r', 't'] || t == seq!['i', 'n', 's'] {
        Some(VK_INSERT)
    } else if t == seq!['h', 'o', 'm', 'e'] {
        Some(VK_HOME)
    } else if t == seq!['e', 'n', 'd'] {
        Some(VK_END)
    } else if t == seq!['p', 'a', 'g', 'e', 'u', 'p'] || t == seq!['p', 'g', 'u', 'p'] {
        Some(VK_PRIOR)
    } else if t == seq!['p', 'a', 'g', 'e', 'd', 'o', 'w', 'n'] || t == seq!['p', 'g', 'd', 'n'] {
        Some(VK_NEXT)
    } else if t == seq!['u', 'p'] {
        Some(VK_UP)
    } else if t == seq!['d', 'o', 'w', 'n'] {
        Some(VK_DOWN)
    } else if t == seq!['l', 'e', 'f', 't'] {
        Some(VK_LEFT)
    } else if t == seq!['r', 'i', 'g', 'h', 't'] {
        Some(VK_RIGHT)
    } else if t == seq!['n', 'u', 'm', 'l', 'o', 'c', 'k'] {
        Some(VK_NUMLOCK)
    } else if t == seq!['s', 'c', 'r', 'o', 'l', 'l', 'l', 'o', 'c', 'k'] {
        Some(VK_SCROLL)
    } else if t == seq!['p', 'a', 'u', 's', 'e'] {
        Some(VK_PAUSE)
    } else if t == seq!['p', 'r', 'i', 'n', 't', 's', 'c', 'r', 'e', 'e', 'n'] || t == seq![
        'p',
        'r',
        't',
        's',
        'c',
    ] {
        Some(VK_SNAPSHOT)
    } else {
        None
    }
}

/// What a (trimmed) token stands for. Modifier words come first; then a
/// single character (an ASCII letter, in either case, or digit); then
/// `f1`..`f24`; then the named keys.
pub open spec fn token_meaning(t: Seq<char>) -> TokenMeaning {
    if t == seq!['c', 't', 'r', 'l'] || t == seq!['c', 'o', 'n', 't', 'r', 'o', 'l'] {
        TokenMeaning::Modifier(MOD_CONTROL)
    } else if t == seq!['a', 'l', 't'] {
        TokenMeaning::Modifier(MOD_ALT)
    } else if t == seq!['s', 'h', 'i', 'f', 't'] {
        TokenMeaning::Modifier(MOD_SHIFT)
    } else if t == seq!['w', 'i', 'n'] || t == seq!['w', 'i', 'n', 'd', 'o', 'w', 's'] {
        TokenMeaning::Modifier(MOD_WIN)
    } else if t.len() == 1 {
        if is_ascii_letter(t[0]) {
            TokenMeaning::Key(ascii_upper_code(t[0]))
        } else if is_ascii_digit(t[0]) {
            TokenMeaning::Key(t[0] as u32)
        } else {
            TokenMeaning::Ignored
        }
    } else if 2 <= t.len() <= 3 && t[0] == 'f' {
        function_key_token(t)
    } else {
        match named_key(t) {
            Some(k) => TokenMeaning::Key(k),
            None => TokenMeaning::Ignored,
        }
    }
}

pub open spec fn initial_state() -> ParseState {
    ParseState { control: false, alt: false, shift: false, win: false, trigger: Trigger::Unset }
}

/// The state after one more token: a modifier is added to the set; a key is
/// taken if none was named before, and otherwise makes a conflict.
pub open spec fn step(st: ParseState, m: TokenMeaning) -> ParseState {
    match m {
        TokenMeaning::Modifier(bit) => ParseState {
            control: st.control || bit == MOD_CONTROL,
            alt: st.alt || bit == MOD_ALT,
            shift: st.shift || bit == MOD_SHIFT,
            win: st.win || bit == MOD_WIN,
            trigger: st.trigger,
        },
        TokenMeaning::Key(k) => ParseState {
            control: st.control,
            alt: st.alt,
            shift: st.shift,
            win: st.win,
            trigger: match st.trigger {
                Trigger::Unset => Trigger::Found(k),
                _ => Trigger::Conflict,
            },
        },
        TokenMeaning::Ignored => st,
    }
}

/// The state after reading the tokens in order, each trimmed.
pub open spec fn parse_tokens(ts: Seq<Seq<char>>) -> ParseState
    decreases ts.len(),
{
    if ts.len() == 0 {
        initial_state()
    } else {
        step(parse_tokens(ts.drop_last()), token_meaning(trim(ts.last())))
    }
}

/// The modifier flags of a state as a mask.
pub open spec fn modifier_mask(st: ParseState) -> u32 {
    ((if st.alt { MOD_ALT } else { 0 }) + (if st.control { MOD_CONTROL } else { 0 }) + (if st.shift {
        MOD_SHIFT
    } else {
        0
    }) + (if st.win { MOD_WIN } else { 0 })) as u32
}

/// The binding that a finished state describes: present only when exactly
/// one token named a key.
pub open spec fn binding_of(st: ParseState) -> Option<(u32, u32)> {
    match st.trigger {
        Trigger::Found(k) => Some((modifier_mask(st), k)),
        _ => None,
    }
}

/// The binding that a hotkey description holds, read as it stands.
pub open spec fn parse_hotkey_text(s: Seq<char>) -> Option<(u32, u32)> {
    binding_of(parse_tokens(split_plus(s)))
}

/// The binding to use for a parse result: the safe default `Control+B` when
/// the text yields none.
pub open spec fn binding_or_default(parsed: Option<(u32, u32)>) -> (u32, u32) {
    match parsed {
        Some(b) => b,
        None => (MOD_CONTROL, DEFAULT_TRIGGER),
    }
}

pub uninterp spec fn lower_of(s: Seq<char>) -> Seq<char>;

/// Relies on `str::to_lowercase`: the result depends on the characters alone.
#[verifier::external_body]
fn lowercase(s: &str) -> (r: String)
    ensures
        r@ == lower_of(s@),
{
    s.to_lowercase()
}

/// The named key that `v[a..b]` spells, if any.
fn named_key_of(v: &Vec<char>, a: usize, b: usize) -> (r: Option<u32>)
    requires
        a <= b <= v.len(),
    ensures
        r == named_key(v@.subrange(a as int, b as int)),
{
    if range_is(v, a, b, &['s', 'p', 'a', 'c', 'e']) {
        Some(VK_SPACE)
    } else if range_is(v, a, b, &['e', 'n', 't', 'e', 'r']) || range_is(
        v,
        a,
        b,
        &['r', 'e', 't', 'u', 'r', 'n'],
    ) {
        Some(VK_RETURN)
    } else if range_is(v, a, b, &['e', 's', 'c', 'a', 'p', 'e']) || range_is(
        v,
        a,
        b,
        &['e', 's', 'c'],
    ) {
        Some(VK_ESCAPE)
    } else if range_is(v, a, b, &['t', 'a', 'b']) {
        Some(VK_TAB)
    } else if range_is(v, a, b, &['b', 'a', 'c', 'k', 's', 'p', 'a', 'c', 'e']) {
        Some(VK_BACK)
    } else if range_is(v, a, b, &['d', 'e', 'l', 'e', 't', 'e']) || range_is(
        v,
        a,
        b,
        &['d', 'e', 'l'],
    ) {
        Some(VK_DELETE)
    } else if range_is(v, a, b, &['i', 'n', 's', 'e', 'r', 't']) || range_is(
        v,
        a,
        b,
        &['i', 'n', 's'],
    ) {
        Some(VK_INSERT)
    } else if range_is(v, a, b, &['h', 'o', 'm', 'e']) {
        Some(VK_HOME)
    } else if range_is(v, a, b, &['e', 'n', 'd']) {
        Some(VK_END)
    } else if range_is(v, a, b, &['p', 'a', 'g', 'e', 'u', 'p']) || range_is(
        v,
        a,
        b,
        &['p', 'g', 'u', 'p'],
    ) {
        Some(VK_PRIOR)
    } else if range_is(v, a, b, &['p', 'a', 'g', 'e', 'd', 'o', 'w', 'n']) || range_is(
        v,
        a,
        b,
        &['p', 'g', 'd', 'n'],
    ) {
        Some(VK_NEXT)
    } else if range_is(v, a, b, &['u', 'p']) {
        Some(VK_UP)
    } else if range_is(v, a, b, &['d', 'o', 'w', 'n']) {
        Some(VK_DOWN)
    } else if range_is(v, a, b, &['l', 'e', 'f', 't']) {
        Some(VK_LEFT)
    } else if range_is(v, a, b, &['r', 'i', 'g', 'h', 't']) {
        Some(VK_RIGHT)
    } else if range_is(v, a, b, &['n', 'u', 'm', 'l', 'o', 'c', 'k']) {
        Some(VK_NUMLOCK)
    } else if range_is(v, a, b, &['s', 'c', 'r', 'o', 'l', 'l', 'l', 'o', 'c', 'k']) {
        Some(VK_SCROLL)
    } else if range_is(v, a, b, &['p', 'a', 'u', 's', 'e']) {
        Some(VK_PAUSE)
    } else if range_is(v, a, b, &['p', 'r', 'i', 'n', 't', 's', 'c', 'r', 'e', 'e', 'n'])
        || range_is(v, a, b, &['p', 'r', 't', 's', 'c']) {
        Some(VK_SNAPSHOT)
    } else {
        None
    }
}

fn is_digit_char(c: char) -> (r: bool)
    ensures
        r == is_ascii_digit(c),
{
    0x30 <= c as u32 && c as u32 <= 0x39
}

/// The function key that `v[a..b]`, two or three characters starting with
/// `f`, names.
fn function_key_of(v: &Vec<char>, a: usize, b: usize) -> (r: TokenMeaning)
    requires
        a <= b <= v.len(),
    ensures
        r == function_key_token(v@.subrange(a as int, b as int)),
{
    let ghost t = v@.subrange(a as int, b as int);
    let n: u32;
    if b - a == 2 && is_digit_char(v[a + 1]) {
        assert(t[1] == v@[a + 1]);
        n = v[a + 1] as u32 - 0x30;
    } else if b - a == 3 && is_digit_char(v[a + 1]) && is_digit_char(v[a + 2]) {
        assert(t[1] == v@[a + 1] && t[2] == v@[a + 2]);
        n = 10 * (v[a + 1] as u32 - 0x30) + (v[a + 2] as u32 - 0x30);
    } else {
        return TokenMeaning::Ignored;
    }
    if 1 <= n && n <= 24 {
        TokenMeaning::Key(VK_F1 + n - 1)
    } else {
        TokenMeaning::Ignored
    }
}

/// What the token `v[a..b]` stands for.
fn classify_token(v: &Vec<char>, a: usize, b: usize) -> (r: TokenMeaning)
    requires
        a <= b <= v.len(),
    ensures
        r == token_meaning(v@.subrange(a as int, b as int)),
{
    let ghost t = v@.subrange(a as int, b as int);
    if range_is(v, a, b, &['c', 't', 'r', 'l']) || range_is(
        v,
        a,
        b,
        &['c', 'o', 'n', 't', 'r', 'o', 'l'],
    ) {
        TokenMeaning::Modifier(MOD_CONTROL)
    } else if range_is(v, a, b, &['a', 'l', 't']) {
        TokenMeaning::Modifier(MOD_ALT)
    } else if range_is(v, a, b, &['s', 'h', 'i', 'f', 't']) {
        TokenMeaning::Modifier(MOD_SHIFT)
    } else if range_is(v, a, b, &['w', 'i', 'n']) || range_is(
        v,
        a,
        b,
        &['w', 'i', 'n', 'd', 'o', 'w', 's'],
    ) {
        TokenMeaning::Modifier(MOD_WIN)
    } else if b - a == 1 {
        let c = v[a];
        assert(t[0] == c);
        let u = c as u32;
        if 0x61 <= u && u <= 0x7A {
            TokenMeaning::Key(u - 0x20)
        } else if 0x41 <= u && u <= 0x5A {
            TokenMeaning::Key(u)
        } else if is_digit_char(c) {
            TokenMeaning::Key(u)
        } else {
            TokenMeaning::Ignored
        }
    } else if 2 <= b - a && b - a <= 3 && v[a] == 'f' {
        assert(t[0] == v@[a as int]);
        function_key_of(v, a, b)
    } else {
        proof {
            if 2 <= b - a {
                assert(t[0] == v@[a as int]);
            }
        }
        match named_key_of(v, a, b) {
            Some(k) => TokenMeaning::Key(k),
            None => TokenMeaning::Ignored,
        }
    }
}

/// `st` after the token `v[start..end]`, trimmed.
fn apply_token(st: ParseState, v: &Vec<char>, start: usize, end: usize) -> (r: ParseState)
    requires
        start <= end <= v.len(),
    ensures
        r == step(st, token_meaning(trim(v@.subrange(start as int, end as int)))),
{
    let (a, b) = trim_bounds(v, start, end);
    let m = classify_token(v, a, b);
    match m {
        TokenMeaning::Modifier(bit) => ParseState {
            control: st.control || bit == MOD_CONTROL,
            alt: st.alt || bit == MOD_ALT,
            shift: st.shift || bit == MOD_SHIFT,
            win: st.win || bit == MOD_WIN,
            trigger: st.trigger,
        },
        TokenMeaning::Key(k) => ParseState {
            control: st.control,
            alt: st.alt,
            shift: st.shift,
            win: st.win,
            trigger: match st.trigger {
                Trigger::Unset => Trigger::Found(k),
                _ => Trigger::Conflict,
            },
        },
        TokenMeaning::Ignored => st,
    }
}

/// Parses a hotkey description exactly as it stands (no case folding):
/// `+`-separated tokens, each trimmed of whitespace; modifier words set
/// their flag; exactly one token must name a key. `None` when no token, or
/// more than one, names a key.
pub fn parse_lowercased_hotkey(text: &str) -> (r: Option<(u32, u32)>)
    ensures
        r == parse_hotkey_text(text@),
{
    let v = chars_of(text);
    let mut st = ParseState {
        control: false,
        alt: false,
        shift: false,
        win: false,
        trigger: Trigger::Unset,
    };
    let mut start: usize = 0;
    let mut i: usize = 0;
    let ghost mut done: Seq<Seq<char>> = Seq::empty();
    assert(v@.take(0) =~= Seq::<char>::empty());
    assert(v@.subrange(0, 0) =~= Seq::<char>::empty());
    while i < v.len()
        invariant
            start <= i <= v.len(),
            v@ == text@,
            split_plus(v@.take(i as int)) == done.push(v@.subrange(start as int, i as int)),
            st == parse_tokens(done),
        decreases v.len() - i,
    {
        assert(v@.take(i + 1).drop_last() =~= v@.take(i as int));
        assert(v@.take(i + 1).last() == v@[i as int]);
        if v[i] == '+' {
            let ghost t = v@.subrange(start as int, i as int);
            st = apply_token(st, &v, start, i);
            proof {
                assert(done.push(t).drop_last() =~= done);
                done = done.push(t);
                assert(v@.subrange(i + 1, i + 1) =~= Seq::<char>::empty());
            }
            start = i + 1;
        } else {
            proof {
                let t = v@.subrange(start as int, i as int);
                assert(t.push(v@[i as int]) =~= v@.subrange(start as int, i + 1));
                assert(done.push(t).update(done.len() as int, t.push(v@[i as int])) =~= done.push(
                    v@.subrange(start as int, i + 1),
                ));
            }
        }
        i = i + 1;
    }
    let ghost last = v@.subrange(start as int, v.len() as int);
    st = apply_token(st, &v, start, v.len());
    proof {
        assert(v@.take(v.len() as int) =~= v@);
        assert(done.push(last).drop_last() =~= done);
    }
    match st.trigger {
        Trigger::Found(k) => {
            let mask: u32 = (if st.alt {
                MOD_ALT
            } else {
                0
            }) + (if st.control {
                MOD_CONTROL
            } else {
                0
            }) + (if st.shift {
                MOD_SHIFT
            } else {
                0
            }) + (if st.win {
                MOD_WIN
            } else {
                0
            });
            Some((mask, k))
        },
        _ => None,
    }
}

/// Parses a hotkey description such as `ctrl+shift+l`, ignoring case: the
/// text is lower-cased, then read as `parse_lowercased_hotkey` reads it.
pub fn parse_hotkey(hotkey: &str) -> (r: Option<(u32, u32)>)
    ensures
        r == parse_hotkey_text(lower_of(hotkey@)),
{
    let lowered = lowercase(hotkey);
    parse_lowercased_hotkey(lowered.as_str())
}

/// The binding configured by `hotkey`, or `Control+B` when the text names
/// no trigger key.
pub fn hotkey_binding(hotkey: &str) -> (r: (u32, u32))
    ensures
        r == binding_or_default(parse_hotkey_text(lower_of(hotkey@))),
{
    match parse_hotkey(hotkey) {
        Some(b) => b,
        None => (MOD_CONTROL, DEFAULT_TRIGGER),
    }
}


/// The decimal digit `d` as a character.
pub open spec fn digit_char(d: int) -> char {
    ((d + 0x30) as u8) as char
}

/// `f1` to `f24`.
pub open spec fn function_key_name(n: int) -> Seq<char> {
    if n < 10 {
        seq!['f', digit_char(n)]
    } else {
        seq!['f', digit_char(n / 10), digit_char(n % 10)]
    }
}

/// The spelling used for each named key when a binding is written out.
pub open spec fn canonical_name(vk: u32) -> Option<Seq<char>> {
    if vk == VK_SPACE {
        Some(seq!['s', 'p', 'a', 'c', 'e'])
    } else if vk == VK_RETURN {
        Some(seq!['e', 'n', 't', 'e', 'r'])
    } else if vk == VK_ESCAPE {
        Some(seq!['e', 's', 'c', 'a', 'p', 'e'])
    } else if vk == VK_TAB {
        Some(seq!['t', 'a', 'b'])
    } else if vk == VK_BACK {
        Some(seq!['b', 'a', 'c', 'k', 's', 'p', 'a', 'c', 'e'])
    } else if vk == VK_DELETE {
        Some(seq!['d', 'e', 'l', 'e', 't', 'e'])
    } else if vk == VK_INSERT {
        Some(seq!['i', 'n', 's', 'e', 'r', 't'])
    } else if vk == VK_HOME {
        Some(seq!['h', 'o', 'm', 'e'])
    } else if vk == VK_END {
        Some(seq!['e', 'n', 'd'])
    } else if vk == VK_PRIOR {
        Some(seq!['p', 'a', 'g', 'e', 'u', 'p'])
    } else if vk == VK_NEXT {
        Some(seq!['p', 'a', 'g', 'e', 'd', 'o', 'w', 'n'])
    } else if vk == VK_UP {
        Some(seq!['u', 'p'])
    } else if vk == VK_DOWN {
        Some(seq!['d', 'o', 'w', 'n'])
    } else if vk == VK_LEFT {
        Some(seq!['l', 'e', 'f', 't'])
    } else if vk == VK_RIGHT {
        Some(seq!['r', 'i', 'g', 'h', 't'])
    } else if vk == VK_NUMLOCK {
        Some(seq!['n', 'u', 'm', 'l', 'o', 'c', 'k'])
    } else if vk == VK_SCROLL {
        Some(seq!['s', 'c', 'r', 'o', 'l', 'l', 'l', 'o', 'c', 'k'])
    } else if vk == VK_PAUSE {
        Some(seq!['p', 'a', 'u', 's', 'e'])
    } else if vk == VK_SNAPSHOT {
        Some(seq!['p', 'r', 'i', 'n', 't', 's', 'c', 'r', 'e', 'e', 'n'])
    } else {
        None
    }
}

/// The token that names a trigger key: a lower-case letter, a digit,
/// `f1`..`f24`, or a named key. `None` for a key without a name.
pub open spec fn key_name(vk: u32) -> Option<Seq<char>> {
    if 0x41 <= vk <= 0x5A {
        Some(seq![((vk + 0x20) as u8) as char])
    } else if 0x30 <= vk <= 0x39 {
        Some(seq![(vk as u8) as char])
    } else if VK_F1 <= vk <= VK_F24 {
        Some(function_key_name(vk - VK_F1 + 1))
    } else {
        canonical_name(vk)
    }
}

/// `ts` followed by `w` when `cond` holds.
pub open spec fn push_if(ts: Seq<Seq<char>>, cond: bool, w: Seq<char>) -> Seq<Seq<char>> {
    if cond {
        ts.push(w)
    } else {
        ts
    }
}

/// The modifier words of a mask, in the order control, alt, shift, win.
pub open spec fn modifier_tokens(modifiers: u32) -> Seq<Seq<char>> {
    push_if(
        push_if(
            push_if(
                push_if(Seq::empty(), modifiers & MOD_CONTROL != 0, seq!['c', 't', 'r', 'l']),
                modifiers & MOD_ALT != 0,
                seq!['a', 'l', 't'],
            ),
            modifiers & MOD_SHIFT != 0,
            seq!['s', 'h', 'i', 'f', 't'],
        ),
        modifiers & MOD_WIN != 0,
        seq!['w', 'i', 'n'],
    )
}

/// A binding written out: its modifier words, then the key's name, joined
/// by `+`. `None` when the key has no name.
pub open spec fn format_text(modifiers: u32, vk: u32) -> Option<Seq<char>> {
    match key_name(vk) {
        Some(n) => Some(join_plus(modifier_tokens(modifiers).push(n))),
        None => None,
    }
}

/// Relies on `String::push`: appends the character at the end.
pub assume_specification[ String::push ](s: &mut String, ch: char)
    ensures
        final(s)@ == old(s)@.push(ch),
;

/// Appends the characters of `w` to `s`.
fn push_chars(s: &mut String, w: &[char])
    ensures
        final(s)@ == old(s)@ + w@,
{
    let ghost start = s@;
    let mut i: usize = 0;
    while i < w.len()
        invariant
            i <= w.len(),
            s@ == start + w@.take(i as int),
        decreases w.len() - i,
    {
        s.push(w[i]);
        assert(w@.take(i + 1) =~= w@.take(i as int).push(w@[i as int]));
        i = i + 1;
    }
    assert(w@.take(w.len() as int) =~= w@);
}

/// The name of the trigger key `vk`, as `key_name` gives it.
fn key_name_chars(vk: u32) -> (r: Option<Vec<char>>)
    ensures
        match key_name(vk) {
            Some(n) => r is Some && r->0@ == n,
            None => r is None,
        },
{
    if 0x41 <= vk && vk <= 0x5A {
        let mut n: Vec<char> = Vec::new();
        n.push(((vk + 0x20) as u8) as char);
        assert(n@ =~= seq![((vk + 0x20) as u8) as char]);
        Some(n)
    } else if 0x30 <= vk && vk <= 0x39 {
        let mut n: Vec<char> = Vec::new();
        n.push((vk as u8) as char);
        assert(n@ =~= seq![(vk as u8) as char]);
        Some(n)
    } else if VK_F1 <= vk && vk <= VK_F24 {
        let k: u32 = vk - VK_F1 + 1;
        let mut n: Vec<char> = Vec::new();
        n.push('f');
        if k < 10 {
            n.push(((k + 0x30) as u8) as char);
        } else {
            n.push(((k / 10 + 0x30) as u8) as char);
            n.push(((k % 10 + 0x30) as u8) as char);
        }
        assert(n@ =~= function_key_name(k as int));
        Some(n)
    } else if vk == VK_SPACE {
        Some(slice_to_vec(&['s', 'p', 'a', 'c', 'e']))
    } else if vk == VK_RETURN {
        Some(slice_to_vec(&['e', 'n', 't', 'e', 'r']))
    } else if vk == VK_ESCAPE {
        Some(slice_to_vec(&['e', 's', 'c', 'a', 'p', 'e']))
    } else if vk == VK_TAB {
        Some(slice_to_vec(&['t', 'a', 'b']))
    } else if vk == VK_BACK {
        Some(slice_to_vec(&['b', 'a', 'c', 'k', 's', 'p', 'a', 'c', 'e']))
    } else if vk == VK_DELETE {
        Some(slice_to_vec(&['d', 'e', 'l', 'e', 't', 'e']))
    } else if vk == VK_INSERT {
        Some(slice_to_vec(&['i', 'n', 's', 'e', 'r', 't']))
    } else if vk == VK_HOME {
        Some(slice_to_vec(&['h', 'o', 'm', 'e']))
    } else if vk == VK_END {
        Some(slice_to_vec(&['e', 'n', 'd']))
    } else if vk == VK_PRIOR {
        Some(slice_to_vec(&['p', 'a', 'g', 'e', 'u', 'p']))
    } else if vk == VK_NEXT {
        Some(slice_to_vec(&['p', 'a', 'g', 'e', 'd', 'o', 'w', 'n']))
    } else if vk == VK_UP {
        Some(slice_to_vec(&['u', 'p']))
    } else if vk == VK_DOWN {
        Some(slice_to_vec(&['d', 'o', 'w', 'n']))
    } else if vk == VK_LEFT {
        Some(slice_to_vec(&['l', 'e', 'f', 't']))
    } else if vk == VK_RIGHT {
        Some(slice_to_vec(&['r', 'i', 'g', 'h', 't']))
    } else if vk == VK_NUMLOCK {
        Some(slice_to_vec(&['n', 'u', 'm', 'l', 'o', 'c', 'k']))
    } else if vk == VK_SCROLL {
        Some(slice_to_vec(&['s', 'c', 'r', 'o', 'l', 'l', 'l', 'o', 'c', 'k']))
    } else if vk == VK_PAUSE {
        Some(slice_to_vec(&['p', 'a', 'u', 's', 'e']))
    } else if vk == VK_SNAPSHOT {
        Some(slice_to_vec(&['p', 'r', 'i', 'n', 't', 's', 'c', 'r', 'e', 'e', 'n']))
    } else {
        None
    }
}

/// Joining one more token adds it after a `+`, or alone when it is the
/// first.
proof fn lemma_join_push(ts: Seq<Seq<char>>, w: Seq<char>)
    ensures
        join_plus(ts.push(w)) == if ts.len() == 0 {
            w
        } else {
            join_plus(ts) + seq!['+'] + w
        },
{
    assert(ts.push(w).drop_last() =~= ts);
}

/// Appends the token `w` to the text `s` of the tokens `ts`.
fn push_token(s: &mut String, w: &[char], first: bool, Ghost(ts): Ghost<Seq<Seq<char>>>)
    requires
        old(s)@ == join_plus(ts),
        first == (ts.len() == 0),
    ensures
        final(s)@ == join_plus(ts.push(w@)),
{
    proof {
        lemma_join_push(ts, w@);
    }
    if !first {
        s.push('+');
    }
    push_chars(s, w);
}

/// Writes a binding out as text, with the modifiers in the order
/// `ctrl+alt+shift+win` and then the key's name; `None` when the key has
/// no name. Mask bits other than the four modifier flags are left out.
pub fn format_hotkey(modifiers: u32, vk: u32) -> (r: Option<String>)
    ensures
        match format_text(modifiers, vk) {
            Some(t) => r is Some && r->0@ == t,
            None => r is None,
        },
{
    let name = match key_name_chars(vk) {
        Some(n) => n,
        None => {
            return None;
        },
    };
    let mut s = String::new();
    let ghost mut ts: Seq<Seq<char>> = Seq::empty();
    let mut first = true;
    if modifiers & MOD_CONTROL != 0 {
        push_token(&mut s, &['c', 't', 'r', 'l'], first, Ghost(ts));
        proof {
            ts = ts.push(seq!['c', 't', 'r', 'l']);
        }
        first = false;
    }
    if modifiers & MOD_ALT != 0 {
        push_token(&mut s, &['a', 'l', 't'], first, Ghost(ts));
        proof {
            ts = ts.push(seq!['a', 'l', 't']);
        }
        first = false;
    }
    if modifiers & MOD_SHIFT != 0 {
        push_token(&mut s, &['s', 'h', 'i', 'f', 't'], first, Ghost(ts));
        proof {
            ts = ts.push(seq!['s', 'h', 'i', 'f', 't']);
        }
        first = false;
    }
    if modifiers & MOD_WIN != 0 {
        push_token(&mut s, &['w', 'i', 'n'], first, Ghost(ts));
        proof {
            ts = ts.push(seq!['w', 'i', 'n']);
        }
        first = false;
    }
    assert(ts == modifier_tokens(modifiers));
    push_token(&mut s, name.as_slice(), first, Ghost(ts));
    Some(s)
}


/// Reading one more token steps the state by what that token means.
pub proof fn lemma_parse_push(ts: Seq<Seq<char>>, t: Seq<char>)
    ensures
        parse_tokens(ts.push(t)) == step(parse_tokens(ts), token_meaning(trim(t))),
{
    assert(ts.push(t).drop_last() =~= ts);
}

/// A token whose first and last characters are not whitespace is its own
/// trimmed form.
proof fn lemma_trim_unchanged(t: Seq<char>)
    requires
        t.len() > 0,
        !is_white_space(t[0]),
        !is_white_space(t.last()),
    ensures
        trim(t) == t,
{
}

/// The four modifier words read back as their flags.
proof fn lemma_modifier_words()
    ensures
        trim(seq!['c', 't', 'r', 'l']) == seq!['c', 't', 'r', 'l'],
        trim(seq!['a', 'l', 't']) == seq!['a', 'l', 't'],
        trim(seq!['s', 'h', 'i', 'f', 't']) == seq!['s', 'h', 'i', 'f', 't'],
        trim(seq!['w', 'i', 'n']) == seq!['w', 'i', 'n'],
        token_meaning(seq!['c', 't', 'r', 'l']) == TokenMeaning::Modifier(MOD_CONTROL),
        token_meaning(seq!['a', 'l', 't']) == TokenMeaning::Modifier(MOD_ALT),
        token_meaning(seq!['s', 'h', 'i', 'f', 't']) == TokenMeaning::Modifier(MOD_SHIFT),
        token_meaning(seq!['w', 'i', 'n']) == TokenMeaning::Modifier(MOD_WIN),
        has_no_plus(seq!['c', 't', 'r', 'l']),
        has_no_plus(seq!['a', 'l', 't']),
        has_no_plus(seq!['s', 'h', 'i', 'f', 't']),
        has_no_plus(seq!['w', 'i', 'n']),
{
    lemma_trim_unchanged(seq!['c', 't', 'r', 'l']);
    lemma_trim_unchanged(seq!['a', 'l', 't']);
    lemma_trim_unchanged(seq!['s', 'h', 'i', 'f', 't']);
    lemma_trim_unchanged(seq!['w', 'i', 'n']);
}

/// Reading the modifier words of a mask sets exactly the flags of the mask.
proof fn lemma_parse_modifier_tokens(modifiers: u32)
    ensures
        parse_tokens(modifier_tokens(modifiers)) == (ParseState {
            control: modifiers & MOD_CONTROL != 0,
            alt: modifiers & MOD_ALT != 0,
            shift: modifiers & MOD_SHIFT != 0,
            win: modifiers & MOD_WIN != 0,
            trigger: Trigger::Unset,
        }),
        forall|i: int|
            0 <= i < modifier_tokens(modifiers).len() ==> has_no_plus(
                #[trigger] modifier_tokens(modifiers)[i],
            ),
{
    lemma_modifier_words();
    let ctrl = seq!['c', 't', 'r', 'l'];
    let alt = seq!['a', 'l', 't'];
    let shift = seq!['s', 'h', 'i', 'f', 't'];
    let win = seq!['w', 'i', 'n'];
    let t1 = push_if(Seq::empty(), modifiers & MOD_CONTROL != 0, ctrl);
    let t2 = push_if(t1, modifiers & MOD_ALT != 0, alt);
    let t3 = push_if(t2, modifiers & MOD_SHIFT != 0, shift);
    let t4 = push_if(t3, modifiers & MOD_WIN != 0, win);
    lemma_parse_push(Seq::empty(), ctrl);
    lemma_parse_push(t1, alt);
    lemma_parse_push(t2, shift);
    lemma_parse_push(t3, win);
    assert(parse_tokens(Seq::<Seq<char>>::empty()) == initial_state());
    assert forall|i: int| 0 <= i < t4.len() implies has_no_plus(#[trigger] t4[i]) by {
        assert(t4[i] == ctrl || t4[i] == alt || t4[i] == shift || t4[i] == win);
    }
}

/// The name of every key that has one reads back as that key.
proof fn lemma_key_name_reads_back(vk: u32)
    requires
        key_name(vk) is Some,
    ensures
        has_no_plus(key_name(vk)->0),
        trim(key_name(vk)->0) == key_name(vk)->0,
        token_meaning(key_name(vk)->0) == TokenMeaning::Key(vk),
{
    let n = key_name(vk)->0;
    if 0x41 <= vk <= 0x5A {
        let c = ((vk + 0x20) as u8) as char;
        assert(c as u32 == vk + 0x20);
        lemma_trim_unchanged(n);
    } else if 0x30 <= vk <= 0x39 {
        let c = (vk as u8) as char;
        assert(c as u32 == vk);
        lemma_trim_unchanged(n);
    } else if VK_F1 <= vk <= VK_F24 {
        let k = vk - VK_F1 + 1;
        if k < 10 {
            assert(digit_char(k) as u32 == k + 0x30);
        } else {
            assert(digit_char(k / 10) as u32 == k / 10 + 0x30);
            assert(digit_char(k % 10) as u32 == k % 10 + 0x30);
            assert(10 * (k / 10) + k % 10 == k);
        }
        lemma_trim_unchanged(n);
    } else {
        lemma_trim_unchanged(n);
    }
}

/// A mask of the four flags is the sum of the flags it holds.
proof fn lemma_mask_bits(m: u32)
    requires
        m <= 15,
    ensures
        m == (if m & MOD_ALT != 0 {
            MOD_ALT
        } else {
            0
        }) + (if m & MOD_CONTROL != 0 {
            MOD_CONTROL
        } else {
            0
        }) + (if m & MOD_SHIFT != 0 {
            MOD_SHIFT
        } else {
            0
        }) + (if m & MOD_WIN != 0 {
            MOD_WIN
        } else {
            0
        }),
{
    assert(m <= 15 ==> m == (if m & 1 != 0 {
        1u32
    } else {
        0u32
    }) + (if m & 2 != 0 {
        2u32
    } else {
        0u32
    }) + (if m & 4 != 0 {
        4u32
    } else {
        0u32
    }) + (if m & 8 != 0 {
        8u32
    } else {
        0u32
    })) by (bit_vector);
}

/// Writing a binding out and parsing the text again gives the same
/// binding, for every modifier mask and every key that has a name: the
/// letters, the digits, `f1`..`f24` and the named keys.
pub proof fn lemma_format_then_parse(modifiers: u32, vk: u32)
    requires
        modifiers <= 15,
        key_name(vk) is Some,
    ensures
        format_text(modifiers, vk) is Some,
        parse_hotkey_text(format_text(modifiers, vk)->0) == Some((modifiers, vk)),
{
    let n = key_name(vk)->0;
    let ms = modifier_tokens(modifiers);
    let ts = ms.push(n);
    lemma_key_name_reads_back(vk);
    lemma_parse_modifier_tokens(modifiers);
    assert forall|i: int| 0 <= i < ts.len() implies has_no_plus(#[trigger] ts[i]) by {
        if i < ms.len() {
            assert(ts[i] == ms[i]);
        }
    }
    lemma_split_join(ts);
    lemma_parse_push(ms, n);
    lemma_mask_bits(modifiers);
}

} // verus!
