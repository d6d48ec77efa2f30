//! Sequential numbering of a file set: track numbers, and titles written
//! after a naming scheme.
//!
//! A naming scheme is a title with the token `%n` in it. The title of the
//! file at position `i` is the scheme with every `%n` replaced by the
//! number `start + i` in decimal notation.

use crate::decimal::{i64_to_decimal, signed_decimal};
use crate::errors::{Error, ErrorView};
use crate::text::texts;
use vstd::prelude::*;
use vstd::string::StringExecFns;

verus! {

/// The token that a naming scheme holds in place of the number.
pub open spec fn number_token() -> Seq<char> {
    seq!['%', 'n']
}

/// Whether the token stands at the start of `scheme`.
pub open spec fn starts_with_token(scheme: Seq<char>) -> bool {
    scheme.len() >= 2 && scheme[0] == '%' && scheme[1] == 'n'
}

/// Whether the token occurs in `scheme`.
pub open spec fn has_token(scheme: Seq<char>) -> bool {
    exists|i: int| 0 <= i <= scheme.len() && starts_with_token(#[trigger] scheme.skip(i))
}

/// `scheme` with every occurrence of the token replaced by `number`,
/// reading from the left; an occurrence starts only after the one before it
/// has ended.
pub open spec fn substitute(scheme: Seq<char>, number: Seq<char>) -> Seq<char>
    decreases scheme.len(),
{
    if scheme.len() == 0 {
        Seq::empty()
    } else if starts_with_token(scheme) {
        number + substitute(scheme.skip(2), number)
    } else {
        seq![scheme[0]] + substitute(scheme.skip(1), number)
    }
}

/// The titles of `count` files numbered from `start` after `scheme`.
pub open spec fn numbered_titles(scheme: Seq<char>, count: nat, start: int) -> Seq<Seq<char>> {
    Seq::new(count, |i: int| substitute(scheme, signed_decimal(start + i)))
}

/// `String::push`: appends one character.
pub assume_specification[ String::push ](text: &mut String, ch: char)
    ensures
        final(text)@ == old(text)@.push(ch),
;

/// Whether the token occurs in `scheme`.
pub fn contains_token(scheme: &str) -> (found: bool)
    ensures
        found == has_token(scheme@),
{
    let ghost chars = scheme@;
    let mut after_percent = false;
    for ch in it: scheme.chars()
        invariant
            it.seq() == chars,
            chars == scheme@,
            after_percent == (it.index() > 0 && chars[it.index() - 1] == '%'),
            forall|i: int| 0 <= i && i + 2 <= it.index() ==> !starts_with_token(
                #[trigger] chars.skip(i),
            ),
    {
        if after_percent && ch == 'n' {
            proof {
                let at = it.index() - 1;
                assert(chars.skip(at)[0] == chars[at]);
                assert(chars.skip(at)[1] == chars[at + 1]);
                assert(starts_with_token(chars.skip(at)));
            }
            return true;
        }
        proof {
            let at = it.index() - 1;
            if at >= 0 {
                assert(chars.skip(at)[0] == chars[at]);
                assert(chars.skip(at)[1] == chars[at + 1]);
            }
        }
        after_percent = ch == '%';
    }
    proof {
        assert forall|i: int| 0 <= i <= chars.len() implies !starts_with_token(
            #[trigger] chars.skip(i),
        ) by {
            if i + 2 <= chars.len() {
            } else {
                assert(chars.skip(i).len() < 2);
            }
        }
    }
    false
}

/// Writes `scheme` with every occurrence of the token replaced by
/// `number`.
pub fn substitute_number(scheme: &str, number: &str) -> (title: String)
    ensures
        title@ == substitute(scheme@, number@),
{
    let ghost chars = scheme@;
    let ghost whole = substitute(chars, number@);
    let mut title = String::new();
    // A percent sign is held back until the next character shows whether
    // it starts the token.
    let mut held = false;
    proof {
        assert(chars.skip(0) =~= chars);
        assert(title@ + whole =~= whole);
    }
    for ch in it: scheme.chars()
        invariant
            it.seq() == chars,
            chars == scheme@,
            whole == substitute(chars, number@),
            held ==> it.index() > 0 && chars[it.index() - 1] == '%',
            whole == title@ + substitute(
                chars.skip(
                    if held {
                        it.index() - 1
                    } else {
                        it.index() as int
                    },
                ),
                number@,
            ),
    {
        let ghost at = it.index() as int;
        let ghost before = title@;
        let ghost here = chars.skip(at);
        let ghost after = substitute(chars.skip(at + 1), number@);
        proof {
            assert(here[0] == ch);
            assert(here.skip(1) =~= chars.skip(at + 1));
        }
        if held {
            let ghost back = chars.skip(at - 1);
            proof {
                assert(back[0] == '%');
                assert(back[1] == ch);
                assert(back.skip(1) =~= here);
                assert(back.skip(2) =~= chars.skip(at + 1));
                assert(whole == before + substitute(back, number@));
            }
            if ch == 'n' {
                title.append(number);
                held = false;
                proof {
                    assert(substitute(back, number@) == number@ + after);
                    assert(title@ + after =~= before + (number@ + after));
                }
            } else {
                title.push('%');
                proof {
                    assert(substitute(back, number@) == seq!['%'] + substitute(here, number@));
                    assert(title@ + substitute(here, number@) =~= before + (seq!['%'] + substitute(
                        here,
                        number@,
                    )));
                }
                if ch != '%' {
                    let ghost flushed = title@;
                    title.push(ch);
                    held = false;
                    proof {
                        assert(substitute(here, number@) == seq![ch] + after);
                        assert(title@ + after =~= flushed + (seq![ch] + after));
                    }
                }
            }
        } else if ch == '%' {
            held = true;
        } else {
            title.push(ch);
            proof {
                assert(substitute(here, number@) == seq![ch] + after);
                assert(title@ + after =~= before + (seq![ch] + after));
            }
        }
    }
    if held {
        let ghost before = title@;
        title.push('%');
        proof {
            let last = chars.skip(chars.len() - 1);
            assert(last.len() == 1 && last[0] == '%');
            assert(substitute(last.skip(1), number@) =~= Seq::empty());
            assert(substitute(last, number@) =~= seq!['%']);
            assert(title@ =~= before + seq!['%']);
        }
    } else {
        proof {
            assert(substitute(chars.skip(chars.len() as int), number@) =~= Seq::empty());
            assert(title@ + Seq::<char>::empty() =~= title@);
        }
    }
    assert(title@ =~= substitute(chars, number@));
    title
}

/// The titles of `count` files numbered from `start` after
/// `naming_scheme`, in the order of the files, or the refusal of a scheme
/// that lacks the token. The answer is there for all files or for none, so
/// that a refused scheme leaves every file as it was. The numbers must not
/// run past the largest `i32`.
pub fn number_chapters(naming_scheme: &str, count: usize, start: i32) -> (titles: Result<
    Vec<String>,
    Error,
>)
    requires
        has_token(naming_scheme@) ==> start + count <= i32::MAX + 1,
    ensures
        match titles {
            Ok(titles) => has_token(naming_scheme@) && texts(titles@) == numbered_titles(
                naming_scheme@,
                count as nat,
                start as int,
            ),
            Err(error) => !has_token(naming_scheme@) && error@ == ErrorView::NoFormatSpecifierError(
                number_token(),
            ),
        },
{
    if !contains_token(naming_scheme) {
        proof {
            reveal_strlit("%n");
            assert("%n"@ =~= number_token());
        }
        return Err(Error::NoFormatSpecifierError(String::from_str("%n")));
    }
    let mut titles: Vec<String> = Vec::new();
    let mut i: usize = 0;
    while i < count
        invariant
            i <= count,
            start + count <= i32::MAX + 1,
            titles@.len() == i,
            texts(titles@) == numbered_titles(naming_scheme@, i as nat, start as int),
        decreases count - i,
    {
        let number = i64_to_decimal(start as i64 + i as i64);
        let title = substitute_number(naming_scheme, number.as_str());
        let ghost done = titles@;
        titles.push(title);
        proof {
            let wanted = numbered_titles(naming_scheme@, (i + 1) as nat, start as int);
            assert forall|k: int| 0 <= k <= i implies texts(titles@)[k] == wanted[k] by {
                if k < i {
                    assert(texts(titles@)[k] == texts(done)[k]);
                }
            }
            assert(texts(titles@) =~= wanted);
        }
        i = i + 1;
    }
    Ok(titles)
}

/// The track numbers of `count` files numbered from `start`, in the order
/// of the files.
pub fn number_files(count: usize, start: u32) -> (numbers: Vec<u32>)
    requires
        start + count <= u32::MAX + 1,
    ensures
        numbers@.len() == count,
        forall|i: int| 0 <= i < count ==> #[trigger] numbers@[i] == start + i,
{
    let mut numbers: Vec<u32> = Vec::new();
    let mut i: usize = 0;
    while i < count
        invariant
            i <= count,
            start + count <= u32::MAX + 1,
            numbers@.len() == i,
            forall|k: int| 0 <= k < i ==> #[trigger] numbers@[k] == start + k,
        decreases count - i,
    {
        numbers.push((start as u64 + i as u64) as u32);
        i = i + 1;
    }
    numbers
}

} // verus!
