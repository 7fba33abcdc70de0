//! Interpreter resolution: the fixed priority order of launcher candidates,
//! the argv handed to a launcher, and the state machine that walks the
//! candidates. Only a failure to start a process advances to the next
//! candidate; once the engine runs, its outcome is definitive for the call.
//!
//! The bridge holds no cross-call state: a fresh resolver is built for every
//! call, so interpreter availability is re-examined each time.

use vstd::prelude::*;
use vstd::string::StringExecFns;

verus! {

/// One way to start the engine: a launcher program plus the fixed arguments
/// that precede the module marker (e.g. running the engine through a package
/// manager needs two leading arguments).
pub struct Launcher {
    /// The program to invoke.
    pub program: String,
    /// Fixed arguments placed before the module invocation marker.
    pub prefix_args: Vec<String>,
}

/// The fixed, ordered list of launcher candidates: the primary runtime, a
/// secondary runtime, then a package-manager-mediated invocation.
pub fn launcher_candidates() -> (v: Vec<Launcher>)
    ensures
        v@.len() == 3,
        v@[0].program@ == "python"@,
        v@[0].prefix_args.deep_view() == Seq::<Seq<char>>::empty(),
        v@[1].program@ == "python3"@,
        v@[1].prefix_args.deep_view() == Seq::<Seq<char>>::empty(),
        v@[2].program@ == "uv"@,
        v@[2].prefix_args.deep_view() == seq!["run"@, "python"@],
{
    let mut v: Vec<Launcher> = Vec::new();
    let none0: Vec<String> = Vec::new();
    assert(none0.deep_view() =~~= Seq::<Seq<char>>::empty());
    v.push(Launcher { program: String::from_str("python"), prefix_args: none0 });
    let none1: Vec<String> = Vec::new();
    assert(none1.deep_view() =~~= Seq::<Seq<char>>::empty());
    v.push(Launcher { program: String::from_str("python3"), prefix_args: none1 });
    let mut uv_args: Vec<String> = Vec::new();
    uv_args.push(String::from_str("run"));
    uv_args.push(String::from_str("python"));
    assert(uv_args.deep_view() =~~= seq!["run"@, "python"@]);
    v.push(Launcher { program: String::from_str("uv"), prefix_args: uv_args });
    v
}

/// The full argument list handed to a launcher: its fixed prefix arguments,
/// the module invocation marker `-m` with the engine's module path, then the
/// encoded command tokens.
pub fn full_argv(l: &Launcher, tokens: &Vec<String>) -> (v: Vec<String>)
    ensures
        v.deep_view() == l.prefix_args.deep_view() + seq!["-m"@, "command_center.tauri_api"@]
            + tokens.deep_view(),
{
    let mut v: Vec<String> = Vec::new();
    append_all(&mut v, &l.prefix_args);
    push_token(&mut v, "-m");
    push_token(&mut v, "command_center.tauri_api");
    append_all(&mut v, tokens);
    assert(v.deep_view() =~~= l.prefix_args.deep_view() + seq![
        "-m"@,
        "command_center.tauri_api"@,
    ] + tokens.deep_view());
    v
}

/// Append one literal token.
fn push_token(dst: &mut Vec<String>, tok: &str)
    ensures
        final(dst).deep_view() == old(dst).deep_view() + seq![tok@],
{
    dst.push(String::from_str(tok));
    assert(dst.deep_view() =~~= old(dst).deep_view() + seq![tok@]);
}

/// Append a copy of every token of `src`.
fn append_all(dst: &mut Vec<String>, src: &Vec<String>)
    ensures
        final(dst).deep_view() == old(dst).deep_view() + src.deep_view(),
{
    let n = src.len();
    let base = dst.len();
    let mut i: usize = 0;
    while i < n
        invariant
            n == src@.len(),
            base == old(dst)@.len(),
            i <= n,
            dst@.len() == base + i,
            forall|k: int| 0 <= k < base ==> dst@[k] == old(dst)@[k],
            forall|k: int| 0 <= k < i ==> dst@[base + k]@ == src@[k]@,
        decreases n - i,
    {
        dst.push(String::from_str(src[i].as_str()));
        i += 1;
    }
    proof {
        assert forall|k: int| 0 <= k < dst@.len() implies dst.deep_view()[k] == (old(
            dst,
        ).deep_view() + src.deep_view())[k] by {
            assert(dst.deep_view()[k] == dst@[k]@);
            if k < base as int {
                assert(old(dst).deep_view()[k] == old(dst)@[k]@);
            } else {
                assert(src.deep_view()[k - base] == src@[k - base]@);
            }
        }
        assert(dst.deep_view() =~~= old(dst).deep_view() + src.deep_view());
    }
}

/// The resolver's walk over the candidate list. `next` is the index of the
/// candidate to try next; `errors` records, in order, the error text of every
/// candidate that failed to start a process.
pub struct Resolver {
    /// The candidates, in priority order.
    pub candidates: Vec<Launcher>,
    /// The index of the next candidate to try.
    pub next: usize,
    /// One recorded error per candidate already tried and failed to start.
    pub errors: Vec<String>,
}

impl Resolver {
    /// A resolver is well formed when it has tried, and recorded an error
    /// for, exactly the candidates before `next`.
    pub open spec fn wf(&self) -> bool {
        self.next <= self.candidates@.len() && self.errors@.len() == self.next
    }

    /// A fresh resolver over the given candidates: nothing tried yet.
    pub fn new(candidates: Vec<Launcher>) -> (r: Resolver)
        ensures
            r.wf(),
            r.candidates == candidates,
            r.next == 0,
            r.errors@ == Seq::<String>::empty(),
    {
        let r = Resolver { candidates, next: 0, errors: Vec::new() };
        assert(r.errors@ =~= Seq::<String>::empty());
        r
    }

    /// The candidate to try now, or `None` when every candidate has failed
    /// to start.
    pub fn current(&self) -> (r: Option<&Launcher>)
        requires
            self.wf(),
        ensures
            match r {
                Option::Some(l) => self.next < self.candidates@.len() && *l
                    == self.candidates@[self.next as int],
                Option::None => self.next == self.candidates@.len(),
            },
    {
        if self.next < self.candidates.len() {
            Some(&self.candidates[self.next])
        } else {
            None
        }
    }

    /// Record that the current candidate failed to start a process, and
    /// advance to the next one. This is the only failure class that advances:
    /// an engine that ran and failed is definitive for the call.
    pub fn record_start_failure(&mut self, err: String)
        requires
            old(self).wf(),
            old(self).next < old(self).candidates@.len(),
        ensures
            final(self).wf(),
            final(self).candidates == old(self).candidates,
            final(self).next == old(self).next + 1,
            final(self).errors@ == old(self).errors@.push(err),
    {
        self.errors.push(err);
        proof {
            // the candidate count fits in usize, so `next` cannot overflow
            assert(self.next < self.candidates.len());
        }
        self.next = self.next + 1;
    }

    /// Whether every candidate has been tried and failed to start.
    pub fn exhausted(&self) -> (r: bool)
        requires
            self.wf(),
        ensures
            r == (self.next == self.candidates@.len()),
    {
        self.next >= self.candidates.len()
    }

    /// The last recorded start failure, carried by the final
    /// interpreter-unavailable error; `None` only when there was no candidate
    /// at all.
    pub fn last_error(&self) -> (r: Option<&String>)
        requires
            self.wf(),
        ensures
            match r {
                Option::Some(e) => self.errors@.len() > 0 && *e == self.errors@.last(),
                Option::None => self.errors@.len() == 0,
            },
    {
        if self.errors.len() > 0 {
            Some(&self.errors[self.errors.len() - 1])
        } else {
            None
        }
    }
}

} // verus!
