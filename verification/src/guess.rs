//! The guessing game: the player is asked for numbers until one equals the
//! secret number.
//!
//! The game reads its input from a text held in memory and writes what it
//! says to a string, so a whole game is a function from input to output.

use vstd::prelude::*;
use vstd::string::StringExecFns;
use crate::format_spec::{all_digits, is_digit, lemma_digits_end, number, read_digits};
use crate::text::{chars_of, push_char};

verus! {

/// `c` is white space, by Unicode's property of that name.
pub open spec fn is_space(c: char) -> bool {
    let u = c as u32;
    (0x09 <= u && u <= 0x0d) || u == 0x20 || u == 0x85 || u == 0xa0 || u == 0x1680 || (0x2000 <= u
        && u <= 0x200a) || u == 0x2028 || u == 0x2029 || u == 0x202f || u == 0x205f || u == 0x3000
}

/// Where the text starts once the white space at its start is passed.
pub open spec fn trim_from(s: Seq<char>) -> int
    decreases s.len(),
{
    if s.len() > 0 && is_space(s[0]) {
        1 + trim_from(s.drop_first())
    } else {
        0
    }
}

/// Where the text ends once the white space at its end is dropped.
pub open spec fn trim_to(s: Seq<char>) -> int
    decreases s.len(),
{
    if s.len() > 0 && is_space(s.last()) {
        trim_to(s.drop_last())
    } else {
        s.len() as int
    }
}

/// The text without the white space at its start and at its end.
pub open spec fn trimmed(s: Seq<char>) -> Seq<char> {
    if trim_from(s) >= trim_to(s) {
        Seq::empty()
    } else {
        s.subrange(trim_from(s), trim_to(s))
    }
}

/// The number that `t` writes: an optional `+`, then digits and nothing
/// else, the number being no greater than `u32::MAX`.
pub open spec fn unsigned_of(t: Seq<char>) -> Option<u32> {
    let d = if t.len() > 0 && t[0] == '+' {
        t.drop_first()
    } else {
        t
    };
    if all_digits(d) && number(d) <= u32::MAX {
        Some(number(d) as u32)
    } else {
        None
    }
}

/// The guess that a line of input makes, if it makes one.
pub open spec fn guess_of(line: Seq<char>) -> Option<u32> {
    unsigned_of(trimmed(line))
}

/// The secret number that the arguments name: the one after the program's
/// name.
pub open spec fn secret_of(args: Seq<String>) -> Option<u32> {
    if args.len() < 2 {
        None
    } else {
        guess_of(args[1]@)
    }
}

/// Whether `c` is white space.
pub fn is_whitespace(c: char) -> (b: bool)
    ensures
        b == is_space(c),
{
    let u = c as u32;
    (0x09 <= u && u <= 0x0d) || u == 0x20 || u == 0x85 || u == 0xa0 || u == 0x1680 || (0x2000 <= u
        && u <= 0x200a) || u == 0x2028 || u == 0x2029 || u == 0x202f || u == 0x205f || u == 0x3000
}

/// Reads the number that the line `s` writes once trimmed.
pub fn parse_guess_chars(s: &Vec<char>) -> (r: Option<u32>)
    ensures
        r == guess_of(s@),
{
    let mut from: usize = 0;
    assert(s@.skip(0) =~= s@);
    while from < s.len() && is_whitespace(s[from])
        invariant
            from <= s.len(),
            trim_from(s@) == from + trim_from(s@.skip(from as int)),
        decreases s.len() - from,
    {
        proof {
            assert(s@.skip(from as int).drop_first() =~= s@.skip(from + 1));
        }
        from += 1;
    }
    proof {
        if from < s.len() {
            assert(s@.skip(from as int)[0] == s@[from as int]);
        }
        assert(trim_from(s@) == from);
    }
    let mut to: usize = s.len();
    assert(s@.take(to as int) =~= s@);
    while to > 0 && is_whitespace(s[to - 1])
        invariant
            to <= s.len(),
            trim_to(s@) == trim_to(s@.take(to as int)),
            to < s.len() ==> is_space(s@[to as int]),
        decreases to,
    {
        proof {
            assert(s@.take(to as int).drop_last() =~= s@.take(to - 1));
            assert(s@.take(to as int).last() == s@[to - 1]);
        }
        to -= 1;
    }
    proof {
        if to > 0 {
            assert(s@.take(to as int).last() == s@[to - 1]);
        }
        assert(trim_to(s@) == to);
    }
    if from >= to {
        assert(trimmed(s@) =~= Seq::<char>::empty());
        return None;
    }
    let ghost t = s@.subrange(from as int, to as int);
    let start = if s[from] == '+' {
        from + 1
    } else {
        from
    };
    let ghost d = s@.subrange(start as int, to as int);
    proof {
        assert(trimmed(s@) == t);
        assert(t[0] == s@[from as int]);
        if s@[from as int] == '+' {
            assert(t.drop_first() =~= d);
        } else {
            assert(t =~= d);
        }
    }
    let (end, value) = read_digits(s, start);
    proof {
        lemma_digits_end(s@, start as int);
        if end >= to {
            assert forall|i: int| 0 <= i < d.len() implies is_digit(#[trigger] d[i]) by {
                assert(d[i] == s@[start + i]);
            }
        } else if start < to {
            assert(d[end - start] == s@[end as int]);
            assert(!is_digit(d[end - start]));
        }
    }
    if end < to || start == to {
        proof {
            if start < to {
                assert(!is_digit(d[end - start]));
            }
            assert(!all_digits(d));
        }
        return None;
    }
    proof {
        assert(s@[to - 1] == t.last());
        assert(end == to) by {
            if end > to {
                assert(is_digit(s@[to as int]));
                assert(is_space(s@[to as int]));
            }
        }
    }
    match value {
        Some(v) => {
            if v <= u32::MAX as usize {
                Some(v as u32)
            } else {
                None
            }
        },
        None => None,
    }
}

/// Reads the number that the line `line` writes once trimmed.
pub fn parse_guess(line: &str) -> (r: Option<u32>)
    ensures
        r == guess_of(line@),
{
    let s = chars_of(line);
    parse_guess_chars(&s)
}

/// The secret number that the arguments name; nothing if there is no
/// argument after the program's name or if it writes no number.
pub fn try_secret_number(args: &Vec<String>) -> (r: Option<u32>)
    ensures
        r == secret_of(args@),
{
    if args.len() < 2 {
        None
    } else {
        parse_guess(args[1].as_str())
    }
}

/// The secret number that the arguments name.
pub fn get_secret_number(args: &Vec<String>) -> (r: u32)
    requires
        secret_of(args@) is Some,
    ensures
        Some(r) == secret_of(args@),
{
    match try_secret_number(args) {
        Some(n) => n,
        None => 0,
    }
}

/// How long the first line of the text is, its line feed included.
pub open spec fn line_len(s: Seq<char>) -> int
    decreases s.len(),
{
    if s.len() == 0 {
        0
    } else if s[0] == '\n' {
        1
    } else {
        1 + line_len(s.drop_first())
    }
}

/// The first line of a text is within the text, and is not empty unless the
/// text is.
pub proof fn lemma_line_len(s: Seq<char>)
    ensures
        0 <= line_len(s) <= s.len(),
        s.len() > 0 ==> line_len(s) > 0,
    decreases s.len(),
{
    if s.len() > 0 && s[0] != '\n' {
        lemma_line_len(s.drop_first());
    }
}

/// Input held in memory and read line by line.
pub struct Input {
    text: Vec<char>,
    pos: usize,
}

impl Input {
    #[verifier::type_invariant]
    spec fn within(&self) -> bool {
        self.pos <= self.text@.len()
    }

    /// What is still to be read.
    pub closed spec fn rest(&self) -> Seq<char> {
        self.text@.skip(self.pos as int)
    }

    /// The input `text`, nothing of it read yet.
    pub fn new(text: &str) -> (input: Self)
        ensures
            input.rest() == text@,
    {
        let input = Input { text: chars_of(text), pos: 0 };
        assert(input.text@.skip(0) =~= text@);
        input
    }

    /// Whether everything was read.
    pub fn at_end(&self) -> (b: bool)
        ensures
            b == (self.rest().len() == 0),
    {
        proof {
            use_type_invariant(self);
        }
        self.pos >= self.text.len()
    }

    /// Reads the next line, its line feed included; what is left at the end
    /// of the input is a line too. At the end of the input the line is
    /// empty.
    pub fn read_line(&mut self) -> (line: Vec<char>)
        ensures
            line@ == old(self).rest().take(line_len(old(self).rest())),
            final(self).rest() == old(self).rest().skip(line_len(old(self).rest())),
    {
        proof {
            use_type_invariant(&*self);
        }
        let mut line: Vec<char> = Vec::new();
        let start = self.pos;
        let mut at = self.pos;
        let mut done = false;
        let ghost rest = self.rest();
        assert(rest.skip(0) =~= rest);
        while !done && at < self.text.len()
            invariant
                *self == *old(self),
                rest == self.text@.skip(start as int),
                start <= at <= self.text@.len(),
                line@ == rest.take(at - start),
                !done ==> line_len(rest) == (at - start) + line_len(rest.skip(at - start)),
                done ==> line_len(rest) == at - start,
            decreases self.text@.len() - at + (if done { 0int } else { 1 }),
        {
            let c = self.text[at];
            proof {
                assert(rest.skip(at - start)[0] == c);
                assert(rest.skip(at - start).drop_first() =~= rest.skip(at - start + 1));
                assert(rest.take(at - start).push(c) =~= rest.take(at - start + 1));
            }
            line.push(c);
            at += 1;
            if c == '\n' {
                done = true;
            }
        }
        self.pos = at;
        proof {
            assert(self.text@.skip(at as int) =~= rest.skip(at - start));
        }
        line
    }
}

/// The guess that the next line of `input` makes, if it makes one.
pub fn get_guess_number(input: &mut Input) -> (r: Option<u32>)
    ensures
        r == guess_of(old(input).rest().take(line_len(old(input).rest()))),
        final(input).rest() == old(input).rest().skip(line_len(old(input).rest())),
{
    let line = input.read_line();
    parse_guess_chars(&line)
}

/// The character that writes the digit `d`.
pub open spec fn digit_char(d: nat) -> char {
    ((0x30 + d % 10) as u8) as char
}

/// The decimal digits of `n`.
pub open spec fn decimal(n: nat) -> Seq<char>
    decreases n,
{
    if n < 10 {
        seq![digit_char(n)]
    } else {
        decimal(n / 10).push(digit_char(n % 10))
    }
}

/// Appends the decimal digits of `n` to `s`.
pub fn push_decimal(s: &mut String, n: u32)
    ensures
        final(s)@ == old(s)@ + decimal(n as nat),
    decreases n,
{
    if n >= 10 {
        push_decimal(s, n / 10);
    }
    let d: u8 = (n % 10) as u8;
    push_char(s, (0x30 + d) as char);
    proof {
        if n >= 10 {
            assert(old(s)@ + decimal(n as nat / 10).push(digit_char(n as nat % 10)) =~= (old(s)@
                + decimal(n as nat / 10)).push(digit_char(n as nat % 10)));
        } else {
            assert(old(s)@ + seq![digit_char(n as nat)] =~= old(s)@.push(digit_char(n as nat)));
        }
    }
}

/// What the game answers to the guess `guess`.
pub open spec fn answer(secret: u32, guess: u32) -> Seq<char> {
    "You guessed: "@ + decimal(guess as nat) + "\n"@ + (if guess < secret {
        "Too small!\n"@
    } else if guess > secret {
        "Too big!\n"@
    } else {
        "You win!\n"@
    })
}

/// Appends to `output` what the game answers to `guess`, and tells whether
/// the guess is the secret number.
pub fn judge(secret: u32, guess: u32, output: &mut String) -> (won: bool)
    ensures
        final(output)@ == old(output)@ + answer(secret, guess),
        won == (guess == secret),
{
    output.append("You guessed: ");
    push_decimal(output, guess);
    output.append("\n");
    if guess < secret {
        output.append("Too small!\n");
    } else if guess > secret {
        output.append("Too big!\n");
    } else {
        output.append("You win!\n");
    }
    proof {
        let verdict = if guess < secret {
            "Too small!\n"@
        } else if guess > secret {
            "Too big!\n"@
        } else {
            "You win!\n"@
        };
        assert(old(output)@ + "You guessed: "@ + decimal(guess as nat) + "\n"@ + verdict =~= old(
            output,
        )@ + ("You guessed: "@ + decimal(guess as nat) + "\n"@ + verdict));
    }
    guess == secret
}

/// A game played on the input `rest`: what the game says after its
/// greeting, whether it is won, and what of the input is left. Each round
/// asks for a guess and reads a line; a line that makes no guess is passed
/// over; the game ends with the right guess, or a prompt after the input's
/// end.
pub open spec fn game(secret: u32, rest: Seq<char>) -> (Seq<char>, bool, Seq<char>)
    decreases rest.len(),
    via game_goes_on
{
    let prompt = "Please input your guess.\n"@;
    if rest.len() == 0 {
        (prompt, false, rest)
    } else {
        let n = line_len(rest);
        let after = game(secret, rest.skip(n));
        match guess_of(rest.take(n)) {
            None => (prompt + after.0, after.1, after.2),
            Some(g) => if g == secret {
                (prompt + answer(secret, g), true, rest.skip(n))
            } else {
                (prompt + answer(secret, g) + after.0, after.1, after.2)
            },
        }
    }
}

/// Each round of the game reads at least one character.
#[via_fn]
proof fn game_goes_on(secret: u32, rest: Seq<char>) {
    lemma_line_len(rest);
}

/// Plays the game: greets, then asks for guesses and answers them until the
/// secret number that `args` names is guessed or the input is at its end.
/// Returns whether the game was won.
pub fn guess_game(input: &mut Input, output: &mut String, args: &Vec<String>) -> (won: bool)
    requires
        secret_of(args@) is Some,
    ensures
        final(output)@ == old(output)@ + "Guess the number!\n"@ + game(
            secret_of(args@)->Some_0,
            old(input).rest(),
        ).0,
        won == game(secret_of(args@)->Some_0, old(input).rest()).1,
        final(input).rest() == game(secret_of(args@)->Some_0, old(input).rest()).2,
{
    output.append("Guess the number!\n");
    let secret_number = get_secret_number(args);
    let ghost whole = game(secret_number, input.rest());
    let ghost head = output@;
    loop
        invariant
            Some(secret_number) == secret_of(args@),
            head == old(output)@ + "Guess the number!\n"@,
            whole == game(secret_number, old(input).rest()),
            output@ + game(secret_number, input.rest()).0 == head + whole.0,
            game(secret_number, input.rest()).1 == whole.1,
            game(secret_number, input.rest()).2 == whole.2,
        decreases input.rest().len(),
    {
        let ghost before = output@;
        let ghost rest = input.rest();
        proof {
            lemma_line_len(rest);
        }
        output.append("Please input your guess.\n");
        if input.at_end() {
            return false;
        }
        let guess = match get_guess_number(input) {
            Some(n) => n,
            None => {
                proof {
                    assert(before + ("Please input your guess.\n"@ + game(
                        secret_number,
                        input.rest(),
                    ).0) =~= output@ + game(secret_number, input.rest()).0);
                }
                continue ;
            },
        };
        let ghost asked = output@;
        let won = judge(secret_number, guess, output);
        if won {
            proof {
                assert(before + ("Please input your guess.\n"@ + answer(secret_number, guess))
                    =~= output@);
            }
            return true;
        }
        proof {
            assert(before + ("Please input your guess.\n"@ + answer(secret_number, guess) + game(
                secret_number,
                input.rest(),
            ).0) =~= output@ + game(secret_number, input.rest()).0);
        }
    }
}

} // verus!
