//! The command line of the driver: how many terms, and at which level.

use vstd::prelude::*;
use vstd::string::*;

verus! {

/// The number of terms where the command line names none.
pub const DEFAULT_COUNT: usize = 10;

/// Whether a text begins with another.
pub open spec fn starts_with(text: Seq<char>, prefix: Seq<char>) -> bool {
    prefix.len() <= text.len() && text.take(prefix.len() as int) == prefix
}

/// A text without the prefix at its start, as often as it stands there.
pub open spec fn stripped(text: Seq<char>, prefix: Seq<char>) -> Seq<char>
    decreases text.len(),
{
    if prefix.len() > 0 && starts_with(text, prefix) {
        stripped(text.skip(prefix.len() as int), prefix)
    } else {
        text
    }
}

/// Whether a character is a decimal digit.
pub open spec fn is_digit(c: char) -> bool {
    '0' as u32 <= c as u32 <= '9' as u32
}

/// Whether a text is made of decimal digits alone.
pub open spec fn all_digits(text: Seq<char>) -> bool {
    forall|i: int| 0 <= i < text.len() ==> is_digit(#[trigger] text[i])
}

/// The number that a text of decimal digits writes.
pub open spec fn number(digits: Seq<char>) -> nat
    decreases digits.len(),
{
    if digits.len() == 0 {
        0
    } else {
        10 * number(digits.drop_last()) + (digits.last() as u32 - '0' as u32) as nat
    }
}

/// What stands behind an optional plus sign.
pub open spec fn unsigned_part(text: Seq<char>) -> Seq<char> {
    if text.len() > 0 && text[0] == '+' {
        text.skip(1)
    } else {
        text
    }
}

/// The count that a text writes: an optional plus sign, then one decimal
/// digit or more and nothing else, for a number that a `usize` holds. Any
/// other text writes none.
pub open spec fn count_of(text: Seq<char>) -> Option<usize> {
    let digits = unsigned_part(text);
    if digits.len() > 0 && all_digits(digits) && number(digits) <= usize::MAX {
        Some(number(digits) as usize)
    } else {
        None
    }
}

/// What a command line asks for.
#[derive(Debug)]
pub struct Invocation {
    /// The number of terms to compute.
    pub count: usize,
    /// Whether the fast level was asked for.
    pub fast: bool,
    /// Whether help was asked for: nothing is computed then.
    pub help: bool,
    /// For each `--num` whose value is no count, in their order, the count
    /// that stayed in force.
    pub rejected: Vec<usize>,
}

/// What a command line asks for, as plain values.
pub struct Request {
    pub count: usize,
    pub fast: bool,
    pub help: bool,
    pub rejected: Seq<usize>,
}

impl View for Invocation {
    type V = Request;

    open spec fn view(&self) -> Request {
        Request { count: self.count, fast: self.fast, help: self.help, rejected: self.rejected@ }
    }
}

/// What is asked for before any argument is read.
pub open spec fn initial() -> Request {
    Request { count: DEFAULT_COUNT, fast: false, help: false, rejected: Seq::empty() }
}

/// What one more argument makes of a request: `--num=` sets the count where
/// a count follows, and is noted as rejected where none does; `--fast`
/// chooses the fast level; `--help` and `-h` ask for help; anything else is
/// passed over.
pub open spec fn read(request: Request, argument: Seq<char>) -> Request {
    if starts_with(argument, "--num="@) {
        match count_of(stripped(argument, "--num="@)) {
            Some(count) => Request { count, ..request },
            None => Request { rejected: request.rejected.push(request.count), ..request },
        }
    } else if argument == "--fast"@ {
        Request { fast: true, ..request }
    } else if argument == "--help"@ || argument == "-h"@ {
        Request { help: true, ..request }
    } else {
        request
    }
}

/// What a sequence of arguments asks for: they are read in order, up to the
/// first that asks for help.
pub open spec fn read_all(arguments: Seq<Seq<char>>) -> Request
    decreases arguments.len(),
{
    if arguments.len() == 0 {
        initial()
    } else {
        let before = read_all(arguments.drop_last());
        if before.help {
            before
        } else {
            read(before, arguments.last())
        }
    }
}

/// What the arguments of a command line hold, without the first of them,
/// which names the program.
pub open spec fn arguments_of(args: Seq<String>) -> Seq<Seq<char>> {
    Seq::new(
        if args.len() == 0 {
            0
        } else {
            (args.len() - 1) as nat
        },
        |i: int| args[i + 1]@,
    )
}

/// A number of digits is at least the number of any run of its first digits.
pub proof fn lemma_number_grows(digits: Seq<char>, n: int)
    requires
        all_digits(digits),
        0 <= n <= digits.len(),
    ensures
        number(digits.take(n)) <= number(digits),
    decreases digits.len() - n,
{
    if n < digits.len() {
        lemma_number_grows(digits, n + 1);
        assert(digits.take(n + 1).drop_last() =~= digits.take(n));
        assert(is_digit(digits[n]));
    } else {
        assert(digits.take(n) =~= digits);
    }
}

/// Whether the text from a position on begins with a prefix.
pub fn has_prefix_at(text: &str, from: usize, prefix: &str) -> (found: bool)
    requires
        from <= text@.len(),
    ensures
        found == starts_with(text@.skip(from as int), prefix@),
{
    let length: usize = text.unicode_len();
    let width: usize = prefix.unicode_len();
    if width > length - from {
        return false;
    }
    let ghost rest = text@.skip(from as int);
    let mut i: usize = 0;
    while i < width
        invariant
            from <= length,
            length == text@.len(),
            width == prefix@.len(),
            width <= length - from,
            i <= width,
            rest == text@.skip(from as int),
            forall|j: int| 0 <= j < i ==> rest[j] == prefix@[j],
        decreases width - i,
    {
        if text.get_char(from + i) != prefix.get_char(i) {
            assert(rest.take(width as int)[i as int] != prefix@[i as int]);
            return false;
        }
        i = i + 1;
    }
    assert(rest.take(width as int) =~= prefix@);
    true
}

/// Whether two texts are the same.
pub fn same_text(text: &str, other: &str) -> (same: bool)
    ensures
        same == (text@ == other@),
{
    if text.unicode_len() != other.unicode_len() {
        return false;
    }
    let found = has_prefix_at(text, 0, other);
    proof {
        assert(text@.skip(0) =~= text@);
        assert(text@.take(text@.len() as int) =~= text@);
    }
    found
}

/// The position behind the prefix at the start of a text, as often as it
/// stands there.
pub fn strip_offset(text: &str, prefix: &str) -> (from: usize)
    ensures
        from <= text@.len(),
        text@.skip(from as int) == stripped(text@, prefix@),
{
    let width: usize = prefix.unicode_len();
    let length: usize = text.unicode_len();
    let mut from: usize = 0;
    assert(text@.skip(0) =~= text@);
    if width == 0 {
        return from;
    }
    while has_prefix_at(text, from, prefix)
        invariant
            width == prefix@.len(),
            width > 0,
            length == text@.len(),
            from <= length,
            stripped(text@.skip(from as int), prefix@) == stripped(text@, prefix@),
        decreases length - from,
    {
        assert(text@.skip(from as int).skip(width as int) =~= text@.skip(from + width));
        from = from + width;
    }
    from
}

/// Reads a count from the text that begins at a position.
pub fn parse_count(text: &str, from: usize) -> (count: Option<usize>)
    requires
        from <= text@.len(),
    ensures
        count == count_of(text@.skip(from as int)),
{
    let length: usize = text.unicode_len();
    let ghost whole = text@.skip(from as int);
    let mut begin: usize = from;
    if begin < length && text.get_char(begin) == '+' {
        begin = begin + 1;
        assert(text@.skip(from as int).skip(1) =~= text@.skip(begin as int));
    }
    let ghost digits = text@.skip(begin as int);
    assert(digits == unsigned_part(whole));
    if begin == length {
        return None;
    }
    let mut value: usize = 0;
    let mut i: usize = begin;
    assert(digits.take(0) =~= Seq::<char>::empty());
    while i < length
        invariant
            begin <= i <= length,
            length == text@.len(),
            whole == text@.skip(from as int),
            digits == unsigned_part(whole),
            digits.len() > 0,
            digits == text@.skip(begin as int),
            all_digits(digits.take(i - begin)),
            value == number(digits.take(i - begin)),
        decreases length - i,
    {
        let c: char = text.get_char(i);
        let code: u32 = c as u32;
        assert(digits[i - begin] == c);
        if code < '0' as u32 || code > '9' as u32 {
            assert(!is_digit(digits[i - begin]));
            return None;
        }
        let d: usize = (code - '0' as u32) as usize;
        let ghost next = digits.take(i - begin + 1);
        assert(next.drop_last() =~= digits.take(i - begin));
        assert(next.last() == c);
        assert(number(next) == 10 * value + d);
        assert forall|j: int| 0 <= j < next.len() implies is_digit(#[trigger] next[j]) by {
            if j < i - begin {
                assert(digits.take(i - begin)[j] == next[j]);
            }
        }
        if value > (usize::MAX - d) / 10 {
            proof {
                if all_digits(digits) {
                    lemma_number_grows(digits, i - begin + 1);
                }
            }
            return None;
        }
        value = value * 10 + d;
        i = i + 1;
    }
    assert(digits.take(length - begin) =~= digits);
    Some(value)
}

/// Reads one argument into what was asked for so far.
pub fn read_argument(invocation: &mut Invocation, argument: &str)
    ensures
        final(invocation)@ == read(old(invocation)@, argument@),
{
    if has_prefix_at(argument, 0, "--num=") {
        assert(argument@.skip(0) =~= argument@);
        let from: usize = strip_offset(argument, "--num=");
        match parse_count(argument, from) {
            Some(count) => {
                invocation.count = count;
            },
            None => {
                let kept: usize = invocation.count;
                invocation.rejected.push(kept);
            },
        }
    } else if same_text(argument, "--fast") {
        assert(argument@.skip(0) =~= argument@);
        invocation.fast = true;
    } else if same_text(argument, "--help") || same_text(argument, "-h") {
        assert(argument@.skip(0) =~= argument@);
        invocation.help = true;
    } else {
        assert(argument@.skip(0) =~= argument@);
    }
}

/// Reads the arguments of a command line, the first of which names the
/// program and is passed over.
pub fn parse_arguments(args: &Vec<String>) -> (invocation: Invocation)
    ensures
        invocation@ == read_all(arguments_of(args@)),
{
    let mut invocation = Invocation {
        count: DEFAULT_COUNT,
        fast: false,
        help: false,
        rejected: Vec::new(),
    };
    let ghost given = arguments_of(args@);
    if args.len() == 0 {
        assert(given =~= Seq::<Seq<char>>::empty());
        return invocation;
    }
    let mut i: usize = 1;
    assert(given.take(0) =~= Seq::<Seq<char>>::empty());
    while i < args.len() && !invocation.help
        invariant
            1 <= i <= args.len(),
            given == arguments_of(args@),
            invocation@ == read_all(given.take(i - 1)),
        decreases args.len() - i,
    {
        read_argument(&mut invocation, args[i].as_str());
        assert(given.take(i as int).drop_last() =~= given.take(i - 1));
        assert(given.take(i as int).last() == args@[i as int]@);
        i = i + 1;
    }
    proof {
        if i < args.len() {
            lemma_help_ends_reading(given, i - 1);
        } else {
            assert(given.take(i - 1) =~= given);
        }
    }
    invocation
}

/// A `--num` whose value is no count leaves the count as it was, and asks
/// neither for help nor for the fast level.
pub proof fn lemma_invalid_count_is_passed_over(request: Request, argument: Seq<char>)
    requires
        starts_with(argument, "--num="@),
        count_of(stripped(argument, "--num="@)) is None,
    ensures
        read(request, argument).count == request.count,
        read(request, argument).fast == request.fast,
        read(request, argument).help == request.help,
        read(request, argument).rejected == request.rejected.push(request.count),
{
}

/// A command line on which no `--num` names a count asks for the default
/// number of terms.
pub proof fn lemma_count_stays_default(arguments: Seq<Seq<char>>)
    requires
        forall|i: int|
            0 <= i < arguments.len() && starts_with(#[trigger] arguments[i], "--num="@)
                ==> count_of(stripped(arguments[i], "--num="@)) is None,
    ensures
        read_all(arguments).count == DEFAULT_COUNT,
    decreases arguments.len(),
{
    if arguments.len() > 0 {
        let before = arguments.drop_last();
        assert forall|i: int|
            0 <= i < before.len() && starts_with(
                #[trigger] before[i],
                "--num="@,
            ) implies count_of(stripped(before[i], "--num="@)) is None by {
            assert(before[i] == arguments[i]);
        }
        lemma_count_stays_default(before);
        assert(arguments.last() == arguments[arguments.len() - 1]);
    }
}

/// Once help has been asked for, the arguments that follow change nothing.
pub proof fn lemma_help_ends_reading(arguments: Seq<Seq<char>>, n: int)
    requires
        0 <= n <= arguments.len(),
        read_all(arguments.take(n)).help,
    ensures
        read_all(arguments) == read_all(arguments.take(n)),
    decreases arguments.len() - n,
{
    if n < arguments.len() {
        assert(arguments.take(n + 1).drop_last() =~= arguments.take(n));
        lemma_help_ends_reading(arguments, n + 1);
    } else {
        assert(arguments.take(n) =~= arguments);
    }
}

} // verus!
