//! Choosing a free port that differs from one already taken.
use vstd::prelude::*;

verus! {

/// How many ports the allocator is asked for before giving up on finding
/// one that differs from the excluded port.
pub const FREE_PORT_ATTEMPTS: u32 = 16;

/// The underlying failure behind a launch error.
#[derive(Debug)]
pub enum FailureCause<E> {
    /// An operating-system call failed: resolving the app directory or
    /// asking for a free port.
    Io(E),
    /// The port allocator handed out only the excluded port, every time it
    /// was asked.
    ExcludedPortRepeated,
}

/// A port allocator together with the record of every answer it gave
/// through this source, in order. Each call of the allocator goes through
/// `next`, so the record is exactly the sequence of calls made.
#[verifier::reject_recursive_types(E)]
#[verifier::reject_recursive_types(F)]
pub struct PortSource<E, F: Fn() -> Result<u16, E>> {
    allocate: F,
    answers: Ghost<Seq<Result<u16, E>>>,
}

impl<E, F: Fn() -> Result<u16, E>> PortSource<E, F> {
    /// The answers given so far, oldest first.
    pub closed spec fn answers(&self) -> Seq<Result<u16, E>> {
        self.answers@
    }

    /// The allocator.
    pub closed spec fn allocator(&self) -> F {
        self.allocate
    }

    /// A source that has not been asked yet.
    pub fn new(allocate: F) -> (s: Self)
        ensures
            s.answers() == Seq::<Result<u16, E>>::empty(),
            s.allocator() == allocate,
    {
        PortSource { allocate, answers: Ghost(Seq::empty()) }
    }

    /// Asks the allocator for one port and records the answer.
    pub fn next(&mut self) -> (r: Result<u16, E>)
        requires
            old(self).allocator().requires(()),
        ensures
            final(self).answers() == old(self).answers().push(r),
            final(self).allocator() == old(self).allocator(),
            old(self).allocator().ensures((), r),
    {
        let r = (self.allocate)();
        self.answers = Ghost(self.answers@.push(r));
        r
    }
}

/// The answer is a port, and it is the excluded one.
pub open spec fn is_excluded<E>(excluded: Option<u16>, answer: Result<u16, E>) -> bool {
    answer matches Ok(p) && excluded == Some(p)
}

/// `run` is the sequence of answers one search asks for: every answer but
/// the last is the excluded port, and the search stops at the first answer
/// that is not, or after `FREE_PORT_ATTEMPTS` answers.
pub open spec fn is_search_run<E>(excluded: Option<u16>, run: Seq<Result<u16, E>>) -> bool {
    &&& 1 <= run.len() <= FREE_PORT_ATTEMPTS
    &&& forall|i: int| 0 <= i < run.len() - 1 ==> is_excluded(excluded, #[trigger] run[i])
    &&& run.len() < FREE_PORT_ATTEMPTS ==> !is_excluded(excluded, run.last())
}

/// What a search returns when its last answer is `last`: a port other than
/// the excluded one, the allocator's failure, or, when even the last answer
/// was the excluded port, `ExcludedPortRepeated`.
pub open spec fn search_outcome<E>(excluded: Option<u16>, last: Result<u16, E>) -> Result<u16, FailureCause<E>> {
    match last {
        Ok(p) => if excluded == Some(p) {
            Err(FailureCause::ExcludedPortRepeated)
        } else {
            Ok(p)
        },
        Err(e) => Err(FailureCause::Io(e)),
    }
}

/// The answers that `after` holds beyond `before`, where `before` is a
/// prefix of it.
pub open spec fn new_answers<E>(before: Seq<Result<u16, E>>, after: Seq<Result<u16, E>>) -> Seq<Result<u16, E>> {
    after.subrange(before.len() as int, after.len() as int)
}

/// Every answer in `answers` is one that `allocate` can give.
pub open spec fn answered_by<E, F: Fn() -> Result<u16, E>>(allocate: F, answers: Seq<Result<u16, E>>) -> bool {
    forall|i: int| 0 <= i < answers.len() ==> allocate.ensures((), #[trigger] answers[i])
}

/// `before` is a prefix of `after`.
pub open spec fn extends<E>(before: Seq<Result<u16, E>>, after: Seq<Result<u16, E>>) -> bool {
    before.len() <= after.len() && after.subrange(0, before.len() as int) == before
}

/// Every sequence extends itself.
pub proof fn lemma_extends_self<E>(s: Seq<Result<u16, E>>)
    ensures
        extends(s, s),
        new_answers(s, s).len() == 0,
{
    assert(s.subrange(0, s.len() as int) =~= s);
}

/// Asks `source` for a free port, up to `FREE_PORT_ATTEMPTS` times, and
/// returns the first one that differs from `excluded`; the first failure of
/// the allocator is passed on at once. With no port excluded the first
/// answer decides after a single call.
pub fn find_free_port_excluding<E, F: Fn() -> Result<u16, E>>(
    excluded: Option<u16>,
    source: &mut PortSource<E, F>,
) -> (r: Result<u16, FailureCause<E>>)
    requires
        old(source).allocator().requires(()),
    ensures
        final(source).allocator() == old(source).allocator(),
        extends(old(source).answers(), final(source).answers()),
        is_search_run(excluded, new_answers(old(source).answers(), final(source).answers())),
        r == search_outcome(excluded, new_answers(old(source).answers(), final(source).answers()).last()),
        answered_by(old(source).allocator(), new_answers(old(source).answers(), final(source).answers())),
{
    let ghost before = source.answers();
    proof {
        lemma_extends_self(before);
    }
    let mut attempt: u32 = 0;
    let ghost mut run: Seq<Result<u16, E>> = Seq::empty();
    loop
        invariant
            source.allocator() == old(source).allocator(),
            source.allocator().requires(()),
            before == old(source).answers(),
            attempt < FREE_PORT_ATTEMPTS,
            extends(before, source.answers()),
            run == new_answers(before, source.answers()),
            run.len() == attempt,
            forall|i: int| 0 <= i < run.len() ==> is_excluded(excluded, #[trigger] run[i]),
            answered_by(source.allocator(), run),
        decreases FREE_PORT_ATTEMPTS - attempt,
    {
        let ghost prior = source.answers();
        let answer = source.next();
        proof {
            assert(new_answers(before, source.answers()) =~= run.push(answer));
            assert(source.answers().subrange(0, before.len() as int) =~= prior.subrange(0, before.len() as int));
            run = run.push(answer);
            assert(run.last() == answer);
        }
        attempt = attempt + 1;
        match answer {
            Ok(port) => {
                if excluded != Some(port) {
                    return Ok(port);
                }
                if attempt == FREE_PORT_ATTEMPTS {
                    return Err(FailureCause::ExcludedPortRepeated);
                }
            },
            Err(e) => {
                return Err(FailureCause::Io(e));
            },
        }
    }
}

} // verus!
