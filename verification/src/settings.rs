//! The settings of the page loader.

use vstd::prelude::*;
use vstd::string::StringExecFns;
use crate::guess::{is_whitespace, trim_to};
use crate::text::{chars_of, push_char};

verus! {

/// The number of processors that `num_cpus::get` reports for this machine
/// at this moment. It differs from machine to machine and may differ from
/// call to call.
#[verifier::external_body]
fn cpu_count() -> (n: usize) {
    num_cpus::get()
}

/// What the user asked for: how many pages to load at once, if that was
/// said, and the file that lists the pages.
#[derive(Debug)]
pub struct Settings {
    pub max_threads: Option<usize>,
    pub file: String,
}

impl Settings {
    /// How many pages to load at once where the machine has `cpus`
    /// processors: what the user asked for, else one for each processor.
    pub fn thread_count_for(&self, cpus: usize) -> (n: usize)
        ensures
            n == (match self.max_threads {
                Some(x) => x,
                None => cpus,
            }),
    {
        match self.max_threads {
            Some(x) => x,
            None => cpus,
        }
    }

    /// How many pages to load at once: what the user asked for, else one for
    /// each processor of this machine.
    pub fn get_thread_count(&self) -> (n: usize)
        ensures
            self.max_threads matches Some(x) ==> n == x,
    {
        match self.max_threads {
            Some(x) => x,
            None => cpu_count(),
        }
    }

    /// The file that lists the pages.
    pub fn get_filename(&self) -> (name: &str)
        ensures
            name@ == self.file@,
    {
        self.file.as_str()
    }
}

/// `s` with `_` for each `/`, `:` and `?`.
pub open spec fn plain(s: Seq<char>) -> Seq<char> {
    Seq::new(
        s.len(),
        |i: int|
            if s[i] == '/' || s[i] == ':' || s[i] == '?' {
                '_'
            } else {
                s[i]
            },
    )
}

/// The name under which the page at `link` is saved: the link without its
/// first eight characters and without the white space at its end, with `_`
/// for each `/`, `:` and `?`, in the directory `results` and with `.html` at
/// the end.
pub open spec fn saved_name(link: Seq<char>) -> Seq<char> {
    "results/"@ + plain(link.skip(8).take(trim_to(link.skip(8)))) + ".html"@
}

/// The name under which the page at `link` is saved; nothing for a link of
/// fewer than eight characters.
pub fn result_filename(link: &str) -> (r: Option<String>)
    ensures
        r is Some <==> link@.len() >= 8,
        r matches Some(name) ==> name@ == saved_name(link@),
{
    let s = chars_of(link);
    if s.len() < 8 {
        return None;
    }
    let ghost tail = s@.skip(8);
    let mut to: usize = s.len();
    assert(tail.take(to - 8) =~= tail);
    while to > 8 && is_whitespace(s[to - 1])
        invariant
            8 <= to <= s.len(),
            tail == s@.skip(8),
            trim_to(tail) == trim_to(tail.take(to - 8)),
        decreases to,
    {
        proof {
            assert(tail.take(to - 8).drop_last() =~= tail.take(to - 9));
            assert(tail.take(to - 8).last() == s@[to - 1]);
        }
        to -= 1;
    }
    proof {
        if to > 8 {
            assert(tail.take(to - 8).last() == s@[to - 1]);
        }
        assert(trim_to(tail) == to - 8);
    }
    let mut name = String::from_str("results/");
    let mut i: usize = 8;
    let ghost kept = tail.take(to - 8);
    assert(plain(kept).take(0) =~= Seq::<char>::empty());
    while i < to
        invariant
            8 <= i <= to <= s.len(),
            kept == s@.skip(8).take(to - 8),
            name@ == "results/"@ + plain(kept).take(i - 8),
        decreases to - i,
    {
        let c = s[i];
        let d = if c == '/' || c == ':' || c == '?' {
            '_'
        } else {
            c
        };
        push_char(&mut name, d);
        proof {
            assert(kept[i - 8] == c);
            assert(plain(kept).take(i - 8).push(d) =~= plain(kept).take(i - 7));
            assert(("results/"@ + plain(kept).take(i - 8)).push(d) =~= "results/"@ + plain(
                kept,
            ).take(i - 7));
        }
        i += 1;
    }
    assert(plain(kept).take(to - 8) =~= plain(kept));
    name.append(".html");
    Some(name)
}

} // verus!
