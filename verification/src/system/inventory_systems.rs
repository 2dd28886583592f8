//! The `give` command: `give <player> <item> <amount>` puts a stack of items
//! into the inventory of a player.
//!
//! Here the command is read and resolved. Changing the inventory and telling
//! the client is left to the caller.

use vstd::prelude::*;
use vstd::string::StrSliceExecFns;
use vstd::string::StringExecFns;

use crate::components::InGameName;

verus! {

/// The item that is given where the command names none that is known: the
/// number of the acacia boat.
pub const FALLBACK_ITEM: u16 = 744;

/// The count that is given where the command holds no valid one.
pub const FALLBACK_COUNT: u8 = 1;

/// The characters that separate words: those that Unicode marks as
/// `White_Space`, by their code points.
pub open spec fn is_whitespace(c: char) -> bool {
    let n = c as u32;
    ||| 0x09 <= n <= 0x0d
    ||| n == 0x20
    ||| n == 0x85
    ||| n == 0xa0
    ||| n == 0x1680
    ||| 0x2000 <= n <= 0x200a
    ||| n == 0x2028
    ||| n == 0x2029
    ||| n == 0x202f
    ||| n == 0x205f
    ||| n == 0x3000
}

/// The first place at or after `from` that holds no whitespace; the length
/// of `s` where there is none.
pub open spec fn skip_whitespace(s: Seq<char>, from: int) -> int
    decreases s.len() - from,
{
    if 0 <= from < s.len() && is_whitespace(s[from]) {
        skip_whitespace(s, from + 1)
    } else {
        from
    }
}

/// The first place at or after `from` that holds whitespace; the length of
/// `s` where there is none.
pub open spec fn word_end(s: Seq<char>, from: int) -> int
    decreases s.len() - from,
{
    if 0 <= from < s.len() && !is_whitespace(s[from]) {
        word_end(s, from + 1)
    } else {
        from
    }
}

/// Where the first word at or after `from` begins and ends, if there is one.
/// A word is a longest run of characters that are not whitespace.
pub open spec fn next_word(s: Seq<char>, from: int) -> Option<(int, int)> {
    let begin = skip_whitespace(s, from);
    if begin < s.len() {
        Some((begin, word_end(s, begin)))
    } else {
        None
    }
}

/// The first `n` words of `s` at or after `from`, or as many as there are.
pub open spec fn words(s: Seq<char>, from: int, n: nat) -> Seq<Seq<char>>
    decreases n,
{
    if n == 0 {
        Seq::empty()
    } else {
        match next_word(s, from) {
            Some((begin, end)) => seq![s.subrange(begin, end)] + words(s, end, (n - 1) as nat),
            None => Seq::empty(),
        }
    }
}

/// The word `give`.
pub open spec fn give_word() -> Seq<char> {
    seq!['g', 'i', 'v', 'e']
}

/// The code point of the lower-case form of an ASCII capital, which lies 32
/// after it; of every other character its own.
pub open spec fn lowercase_code(c: char) -> u32 {
    if 'A' <= c <= 'Z' {
        (c as u32 + 32) as u32
    } else {
        c as u32
    }
}

/// Whether `a` and `b` are the same but for the case of ASCII letters.
pub open spec fn eq_ignore_ascii_case(a: Seq<char>, b: Seq<char>) -> bool {
    &&& a.len() == b.len()
    &&& forall|i: int| 0 <= i < a.len() ==> lowercase_code(a[i]) == lowercase_code(b[i])
}

/// The value of a decimal digit; zero for every other character.
pub open spec fn digit_value(c: char) -> nat {
    if '0' <= c <= '9' {
        (c as u32 - '0' as u32) as nat
    } else {
        0
    }
}

/// Whether `s` holds decimal digits only.
pub open spec fn all_digits(s: Seq<char>) -> bool {
    forall|i: int| 0 <= i < s.len() ==> '0' <= #[trigger] s[i] <= '9'
}

/// The number that the decimal digits of `s` write.
pub open spec fn decimal_value(s: Seq<char>) -> nat
    decreases s.len(),
{
    if s.len() == 0 {
        0
    } else {
        decimal_value(s.drop_last()) * 10 + digit_value(s.last())
    }
}

/// The count that `s` writes: one or more decimal digits, after a `+` or
/// not, that make a number of at most 255. Anything else writes none.
pub open spec fn parse_count(s: Seq<char>) -> Option<u8> {
    let digits = if s.len() > 0 && s[0] == '+' {
        s.drop_first()
    } else {
        s
    };
    if digits.len() > 0 && all_digits(digits) && decimal_value(digits) <= u8::MAX {
        Some(decimal_value(digits) as u8)
    } else {
        None
    }
}

/// A chat command, read as a `give` command.
#[derive(Debug, PartialEq, Eq)]
pub enum GiveRequest {
    /// The command is no `give` command.
    NotGive,
    /// The command has fewer than four words.
    Invalid,
    /// The command asks to give `amount` of `item` to `player`.
    Request { player: String, item: String, amount: String },
}

/// What a `GiveRequest` says, in characters.
pub enum GiveRequestView {
    NotGive,
    Invalid,
    Request { player: Seq<char>, item: Seq<char>, amount: Seq<char> },
}

impl View for GiveRequest {
    type V = GiveRequestView;

    open spec fn view(&self) -> GiveRequestView {
        match self {
            GiveRequest::NotGive => GiveRequestView::NotGive,
            GiveRequest::Invalid => GiveRequestView::Invalid,
            GiveRequest::Request { player, item, amount } => GiveRequestView::Request {
                player: player@,
                item: item@,
                amount: amount@,
            },
        }
    }
}

/// What the command `command` asks for.
///
/// A command that does not begin with `give` is none. One that does and has
/// fewer than four words is invalid. One with four words or more is a request
/// if its first word is `give` in any case of letters, and none otherwise;
/// words after the fourth are not read.
pub open spec fn read_give(command: Seq<char>) -> GiveRequestView {
    let found = words(command, 0, 4);
    if !(command.len() >= 4 && command.subrange(0, 4) == give_word()) {
        GiveRequestView::NotGive
    } else if found.len() < 4 {
        GiveRequestView::Invalid
    } else if !eq_ignore_ascii_case(found[0], give_word()) {
        GiveRequestView::NotGive
    } else {
        GiveRequestView::Request { player: found[1], item: found[2], amount: found[3] }
    }
}

/// What is to be done about a command.
#[derive(Clone, Copy, Debug, PartialEq, Eq, Structural)]
pub enum GiveOutcome {
    /// Nothing: the command is no `give` command.
    NotGive,
    /// Nothing, but for a warning: the command has too few words.
    Invalid,
    /// Nothing, but for a warning: no player has the name.
    PlayerNotFound,
    /// The player at the place `player` among the names gets `count` items
    /// of the kind with the number `item`.
    Give { player: usize, item: u16, count: u8 },
}

/// The place of the first of `names` that reads `name`, if any does.
pub open spec fn first_named(names: Seq<InGameName>, name: Seq<char>) -> Option<usize> {
    if exists|i: int| 0 <= i < names.len() && names[i]@ == name {
        let i = choose|i: int|
            0 <= i < names.len() && names[i]@ == name && forall|j: int|
                0 <= j < i ==> names[j]@ != name;
        Some(i as usize)
    } else {
        None
    }
}

/// What is to be done about `request` when the players are called `names`
/// and the kind of item that it names has the number `item`, if there is
/// such a kind.
pub open spec fn resolved(request: GiveRequestView, names: Seq<InGameName>, item: Option<u16>) -> GiveOutcome {
    match request {
        GiveRequestView::NotGive => GiveOutcome::NotGive,
        GiveRequestView::Invalid => GiveOutcome::Invalid,
        GiveRequestView::Request { player, item: _, amount } => match first_named(names, player) {
            None => GiveOutcome::PlayerNotFound,
            Some(place) => GiveOutcome::Give {
                player: place,
                item: match item {
                    Some(id) => id,
                    None => FALLBACK_ITEM,
                },
                count: match parse_count(amount) {
                    Some(count) => count,
                    None => FALLBACK_COUNT,
                },
            },
        },
    }
}

/// The number of the kind of item that goes by `name`, if there is one: what
/// `ItemKind::from_str` of valence finds, as `ItemKind::to_raw` numbers it.
pub uninterp spec fn item_id_named(name: Seq<char>) -> Option<u16>;

/// Looks `name` up with `ItemKind::from_str` of valence and numbers what is
/// found with `ItemKind::to_raw`. The contract claims only that the result
/// depends on the characters of `name` and on nothing else.
#[verifier::external_body]
fn item_kind_id(name: &str) -> (id: Option<u16>)
    ensures
        id == item_id_named(name@),
{
    match valence_server::ItemKind::from_str(name) {
        Some(kind) => Some(kind.to_raw()),
        None => None,
    }
}

/// Whether `c` separates words.
pub fn separates_words(c: char) -> (whitespace: bool)
    ensures
        whitespace == is_whitespace(c),
{
    let n: u32 = c as u32;
    (0x09 <= n && n <= 0x0d) || n == 0x20 || n == 0x85 || n == 0xa0 || n == 0x1680 || (0x2000 <= n
        && n <= 0x200a) || n == 0x2028 || n == 0x2029 || n == 0x202f || n == 0x205f || n == 0x3000
}

/// The characters of `s`, one by one.
fn chars_of(s: &str) -> (chars: Vec<char>)
    ensures
        chars@ == s@,
{
    broadcast use vstd::string::group_string_axioms;

    let mut chars: Vec<char> = Vec::new();
    for c in it: s.chars()
        invariant
            it.seq() == s@,
            chars@ == it.seq().take(it.index() as int),
    {
        assert(it.seq().take(it.index() + 1) == it.seq().take(it.index() as int).push(c));
        chars.push(c);
    }
    assert(s@.take(s@.len() as int) == s@);
    chars
}

/// Where the first word at or after `from` begins and ends, if there is one.
fn find_word(chars: &Vec<char>, from: usize) -> (word: Option<(usize, usize)>)
    requires
        from <= chars@.len(),
    ensures
        match word {
            Some((begin, end)) => next_word(chars@, from as int) == Some(
                (begin as int, end as int),
            ) && from <= begin < end <= chars@.len(),
            None => next_word(chars@, from as int) is None,
        },
{
    let mut begin = from;
    while begin < chars.len() && separates_words(chars[begin])
        invariant
            from <= begin <= chars@.len(),
            skip_whitespace(chars@, from as int) == skip_whitespace(chars@, begin as int),
        decreases chars@.len() - begin,
    {
        begin = begin + 1;
    }
    if begin >= chars.len() {
        return None;
    }
    let mut end = begin + 1;
    while end < chars.len() && !separates_words(chars[end])
        invariant
            begin < end <= chars@.len(),
            word_end(chars@, begin as int) == word_end(chars@, end as int),
        decreases chars@.len() - end,
    {
        end = end + 1;
    }
    Some((begin, end))
}

/// Whether the characters from `begin` to `end` are the word `give`, in
/// whatever case of letters.
fn is_give(chars: &Vec<char>, begin: usize, end: usize) -> (same: bool)
    requires
        begin <= end <= chars@.len(),
    ensures
        same == eq_ignore_ascii_case(chars@.subrange(begin as int, end as int), give_word()),
{
    let word = Ghost(chars@.subrange(begin as int, end as int));
    if end - begin != 4 {
        return false;
    }
    let same = lower(chars[begin]) == lower('g') && lower(chars[begin + 1]) == lower('i')
        && lower(chars[begin + 2]) == lower('v') && lower(chars[begin + 3]) == lower('e');
    proof {
        assert(word@[0] == chars@[begin as int]);
        assert(word@[1] == chars@[begin + 1]);
        assert(word@[2] == chars@[begin + 2]);
        assert(word@[3] == chars@[begin + 3]);
    }
    same
}

/// The code point of the lower-case form of an ASCII capital; of every
/// other character its own.
fn lower(c: char) -> (code: u32)
    ensures
        code == lowercase_code(c),
{
    if 'A' <= c && c <= 'Z' {
        c as u32 + 32
    } else {
        c as u32
    }
}

/// Reads `command` as a `give` command.
pub fn parse_give(command: &str) -> (request: GiveRequest)
    ensures
        request@ == read_give(command@),
{
    let chars = chars_of(command);
    if !(chars.len() >= 4 && chars[0] == 'g' && chars[1] == 'i' && chars[2] == 'v' && chars[3]
        == 'e') {
        assert(!(command@.len() >= 4 && command@.subrange(0, 4) == give_word())) by {
            if command@.len() >= 4 {
                assert(command@.subrange(0, 4)[0] == command@[0]);
                assert(command@.subrange(0, 4)[1] == command@[1]);
                assert(command@.subrange(0, 4)[2] == command@[2]);
                assert(command@.subrange(0, 4)[3] == command@[3]);
            }
        }
        return GiveRequest::NotGive;
    }
    assert(command@.subrange(0, 4) == give_word());
    proof {
        reveal_with_fuel(words, 5);
    }
    let first = match find_word(&chars, 0) {
        Some(word) => word,
        None => {
            return GiveRequest::Invalid;
        },
    };
    let second = match find_word(&chars, first.1) {
        Some(word) => word,
        None => {
            return GiveRequest::Invalid;
        },
    };
    let third = match find_word(&chars, second.1) {
        Some(word) => word,
        None => {
            return GiveRequest::Invalid;
        },
    };
    let fourth = match find_word(&chars, third.1) {
        Some(word) => word,
        None => {
            return GiveRequest::Invalid;
        },
    };
    if !is_give(&chars, first.0, first.1) {
        return GiveRequest::NotGive;
    }
    GiveRequest::Request {
        player: String::from_str(command.substring_char(second.0, second.1)),
        item: String::from_str(command.substring_char(third.0, third.1)),
        amount: String::from_str(command.substring_char(fourth.0, fourth.1)),
    }
}

/// A number of digits is never less than the number of its first digits.
proof fn lemma_decimal_value_grows(s: Seq<char>, n: int)
    requires
        0 <= n <= s.len(),
    ensures
        decimal_value(s.take(n)) <= decimal_value(s),
    decreases s.len(),
{
    if n == s.len() {
        assert(s.take(n) == s);
    } else {
        assert(s.drop_last().take(n) == s.take(n));
        lemma_decimal_value_grows(s.drop_last(), n);
    }
}

/// The count that `amount` writes, if it writes one.
pub fn read_count(amount: &str) -> (count: Option<u8>)
    ensures
        count == parse_count(amount@),
{
    let chars = chars_of(amount);
    let start: usize = if chars.len() > 0 && chars[0] == '+' {
        1
    } else {
        0
    };
    let ghost digits = if amount@.len() > 0 && amount@[0] == '+' {
        amount@.drop_first()
    } else {
        amount@
    };
    assert(digits == chars@.subrange(start as int, chars@.len() as int));
    if start == chars.len() {
        return None;
    }
    let mut value: u32 = 0;
    let mut i: usize = start;
    while i < chars.len()
        invariant
            start <= i <= chars@.len(),
            chars@ == amount@,
            digits == chars@.subrange(start as int, chars@.len() as int),
            digits == if amount@.len() > 0 && amount@[0] == '+' {
                amount@.drop_first()
            } else {
                amount@
            },
            all_digits(digits.take(i - start)),
            value == decimal_value(digits.take(i - start)),
            value <= u8::MAX,
        decreases chars@.len() - i,
    {
        let c = chars[i];
        assert(digits[i - start] == c);
        if !('0' <= c && c <= '9') {
            assert(!all_digits(digits));
            return None;
        }
        proof {
            let seen = digits.take(i - start + 1);
            assert(seen.drop_last() == digits.take(i - start));
            assert(seen.last() == c);
            lemma_decimal_value_grows(digits, i - start + 1);
        }
        value = value * 10 + (c as u32 - '0' as u32);
        if value > 255 {
            return None;
        }
        i = i + 1;
    }
    assert(digits.take(digits.len() as int) == digits);
    Some(value as u8)
}

/// The place of the first of `names` that reads `name`, if any does.
pub fn find_player(names: &Vec<InGameName>, name: &String) -> (place: Option<usize>)
    ensures
        place == first_named(names@, name@),
{
    let mut i: usize = 0;
    while i < names.len()
        invariant
            0 <= i <= names@.len(),
            forall|j: int| 0 <= j < i ==> names@[j]@ != name@,
        decreases names@.len() - i,
    {
        if names[i].reads(name) {
            return Some(i);
        }
        i = i + 1;
    }
    None
}

/// What is to be done about `request` when the players are called `names`
/// and the kind of item that it names has the number `item`, if there is
/// such a kind.
pub fn resolve_give(request: &GiveRequest, names: &Vec<InGameName>, item: Option<u16>) -> (outcome:
    GiveOutcome)
    ensures
        outcome == resolved(request@, names@, item),
{
    match request {
        GiveRequest::NotGive => GiveOutcome::NotGive,
        GiveRequest::Invalid => GiveOutcome::Invalid,
        GiveRequest::Request { player, item: _, amount } => match find_player(names, player) {
            None => GiveOutcome::PlayerNotFound,
            Some(place) => GiveOutcome::Give {
                player: place,
                item: match item {
                    Some(id) => id,
                    None => FALLBACK_ITEM,
                },
                count: match read_count(amount.as_str()) {
                    Some(count) => count,
                    None => FALLBACK_COUNT,
                },
            },
        },
    }
}

/// The kind of item that `request` names, by its number, where the request
/// names one that is known.
pub open spec fn item_asked_for(request: GiveRequestView) -> Option<u16> {
    match request {
        GiveRequestView::Request { item, .. } => item_id_named(item),
        _ => None,
    }
}

/// Reads the chat command `command` and says what is to be done about it
/// when the players are called `names`.
pub fn give_command(command: &str, names: &Vec<InGameName>) -> (outcome: GiveOutcome)
    ensures
        outcome == resolved(read_give(command@), names@, item_asked_for(read_give(command@))),
{
    let request = parse_give(command);
    let item = match &request {
        GiveRequest::Request { item, .. } => item_kind_id(item.as_str()),
        _ => None,
    };
    resolve_give(&request, names, item)
}

} // verus!
