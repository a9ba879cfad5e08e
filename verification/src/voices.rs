//! Enumerating the voices a backend offers.
use vstd::prelude::*;

use crate::error::Error;

verus! {

/// A voice offered by a backend.
#[derive(Debug, Clone, PartialEq, Eq)]
pub struct Voice {
    /// The voice's index, for selecting it.
    pub id: usize,
    /// The voice's human-readable name.
    pub name: String,
    /// The voice's language tag, if the backend reports one.
    pub language: Option<String>,
}

/// The question an enumeration of voices asks the backend next.
#[derive(Debug, Clone, Copy, PartialEq, Eq, Structural)]
pub enum VoiceQuery {
    /// Ask for the name of the voice with this index.
    Name(usize),
    /// Ask for the language of the voice with this index.
    Language(usize),
    /// Nothing more to ask: collect the outcome.
    Finished,
}

/// What an enumeration of voices has learnt so far.
pub struct ListingState {
    /// The number of voices to list.
    pub count: nat,
    /// The voices listed so far.
    pub listed: Seq<Voice>,
    /// The name of the next voice, once known and before its language is.
    pub pending: Option<String>,
    /// The error that ended the enumeration, if one did.
    pub failure: Option<Error>,
}

/// The state is coherent: the count fits a `usize`, the voices listed carry
/// the indices `0..` in order, no more than the count are ever listed, and a
/// pending name belongs to a voice still to be listed.
pub open spec fn coherent(s: ListingState) -> bool {
    &&& s.count <= usize::MAX
    &&& s.listed.len() <= s.count
    &&& forall|i: int| 0 <= i < s.listed.len() ==> (#[trigger] s.listed[i]).id == i
    &&& s.pending is Some ==> s.listed.len() < s.count && s.failure is None
}

/// The query an enumeration in state `s` makes next.
pub open spec fn query_of(s: ListingState) -> VoiceQuery {
    if s.failure is Some || s.listed.len() == s.count {
        VoiceQuery::Finished
    } else if s.pending is None {
        VoiceQuery::Name(s.listed.len() as usize)
    } else {
        VoiceQuery::Language(s.listed.len() as usize)
    }
}

/// The state an enumeration starts in, given the answer to the voice count.
pub open spec fn started(count: Result<usize, Error>) -> ListingState {
    match count {
        Ok(n) => ListingState { count: n as nat, listed: Seq::empty(), pending: None, failure: None },
        Err(e) => ListingState { count: 0, listed: Seq::empty(), pending: None, failure: Some(e) },
    }
}

/// The state after the answer to a name query: the name waits for its
/// language, or the failure ends the enumeration.
pub open spec fn after_name(s: ListingState, answer: Result<String, Error>) -> ListingState {
    match answer {
        Ok(name) => ListingState { pending: Some(name), ..s },
        Err(e) => ListingState { failure: Some(e), ..s },
    }
}

/// The state after the answer to a language query: the voice is listed,
/// without a language where the answer is a failure.
pub open spec fn after_language(s: ListingState, answer: Result<String, Error>) -> ListingState {
    ListingState {
        listed: s.listed.push(
            Voice { id: s.listed.len() as usize, name: s.pending->0, language: answer.ok() },
        ),
        pending: None,
        ..s
    }
}

/// What a finished enumeration in state `s` yields.
pub open spec fn outcome(s: ListingState) -> Result<Seq<Voice>, Error> {
    match s.failure {
        Some(e) => Err(e),
        None => Ok(s.listed),
    }
}

/// The state reached from `s` by answering up to `steps` queries, the name
/// of voice `i` with `names[i]` and its language with `languages[i]`.
pub open spec fn answered(
    s: ListingState,
    names: Seq<Result<String, Error>>,
    languages: Seq<Result<String, Error>>,
    steps: nat,
) -> ListingState
    decreases steps,
{
    if steps == 0 {
        s
    } else {
        match query_of(s) {
            VoiceQuery::Name(i) => answered(after_name(s, names[i as int]), names, languages, (steps - 1) as nat),
            VoiceQuery::Language(i) => answered(
                after_language(s, languages[i as int]),
                names,
                languages,
                (steps - 1) as nat,
            ),
            VoiceQuery::Finished => s,
        }
    }
}

/// How many more answers an enumeration in state `s` takes before it is
/// finished: a name and a language for each voice not yet listed.
pub open spec fn answers_left(s: ListingState) -> nat {
    if query_of(s) is Finished {
        0
    } else if s.pending is Some {
        (2 * (s.count - s.listed.len()) - 1) as nat
    } else {
        (2 * (s.count - s.listed.len())) as nat
    }
}

/// An enumeration of a backend's voices in progress.
///
/// It is driven by answers to the queries it makes: first the voice count,
/// then, for each index in turn, the voice's name and then its language.
/// The first failure to count or to name a voice ends the enumeration with
/// that error; a voice whose language cannot be read is listed without one.
pub struct VoiceListing {
    count: usize,
    voices: Vec<Voice>,
    name: Option<String>,
    failure: Option<Error>,
}

impl VoiceListing {
    /// What the enumeration has learnt so far.
    pub closed spec fn state(&self) -> ListingState {
        ListingState {
            count: self.count as nat,
            listed: self.voices@,
            pending: self.name,
            failure: self.failure,
        }
    }

    #[verifier::type_invariant]
    spec fn is_coherent(&self) -> bool {
        coherent(self.state())
    }

    /// Starts an enumeration from the backend's answer to the voice count.
    pub fn start(count: Result<usize, Error>) -> (listing: Self)
        ensures
            listing.state() == started(count),
            coherent(listing.state()),
    {
        match count {
            Ok(n) => VoiceListing { count: n, voices: Vec::new(), name: None, failure: None },
            Err(error) => VoiceListing {
                count: 0,
                voices: Vec::new(),
                name: None,
                failure: Some(error),
            },
        }
    }

    /// Returns the query the enumeration makes next.
    pub fn next_query(&self) -> (q: VoiceQuery)
        ensures
            q == query_of(self.state()),
            coherent(self.state()),
    {
        proof {
            use_type_invariant(self);
        }
        if self.failure.is_some() || self.voices.len() == self.count {
            VoiceQuery::Finished
        } else if self.name.is_none() {
            VoiceQuery::Name(self.voices.len())
        } else {
            VoiceQuery::Language(self.voices.len())
        }
    }

    /// Takes the backend's answer to the name query.
    pub fn on_name(&mut self, result: Result<String, Error>)
        requires
            query_of(old(self).state()) is Name,
        ensures
            final(self).state() == after_name(old(self).state(), result),
            coherent(final(self).state()),
    {
        proof {
            use_type_invariant(&*self);
        }
        match result {
            Ok(name) => {
                self.name = Some(name);
            },
            Err(error) => {
                self.failure = Some(error);
            },
        }
    }

    /// Takes the backend's answer to the language query, which completes the
    /// voice: a failure leaves it without a language.
    pub fn on_language(&mut self, result: Result<String, Error>)
        requires
            query_of(old(self).state()) is Language,
        ensures
            final(self).state() == after_language(old(self).state(), result),
            coherent(final(self).state()),
    {
        proof {
            use_type_invariant(&*self);
        }
        let mut voices = Vec::new();
        core::mem::swap(&mut voices, &mut self.voices);
        let mut name = None;
        core::mem::swap(&mut name, &mut self.name);
        let id = voices.len();
        let language = match result {
            Ok(language) => Some(language),
            Err(_) => None,
        };
        voices.push(Voice { id, name: name.unwrap(), language });
        self.voices = voices;
    }

    /// Collects the outcome of a finished enumeration: its error, or every
    /// voice, listed by index.
    pub fn finish(self) -> (r: Result<Vec<Voice>, Error>)
        requires
            query_of(self.state()) is Finished,
        ensures
            outcome(self.state()) matches Err(e) ==> r == Err::<Vec<Voice>, Error>(e),
            outcome(self.state()) matches Ok(listed) ==> (r matches Ok(voices) && voices@
                == listed),
            outcome(self.state()) is Ok ==> self.state().listed.len() == self.state().count,
            coherent(self.state()),
    {
        proof {
            use_type_invariant(&self);
        }
        match self.failure {
            Some(error) => Err(error),
            None => Ok(self.voices),
        }
    }
}

/// Every answer brings a coherent enumeration closer to its end, and keeps
/// it coherent.
pub proof fn lemma_answers_decrease(s: ListingState, answer: Result<String, Error>)
    requires
        coherent(s),
    ensures
        query_of(s) is Name ==> coherent(after_name(s, answer)) && answers_left(
            after_name(s, answer),
        ) < answers_left(s),
        query_of(s) is Language ==> coherent(after_language(s, answer)) && answers_left(
            after_language(s, answer),
        ) < answers_left(s),
{
    let t = after_language(s, answer);
    if query_of(s) is Language {
        assert forall|i: int| 0 <= i < t.listed.len() implies (#[trigger] t.listed[i]).id == i by {
            if i < s.listed.len() {
                assert(t.listed[i] == s.listed[i]);
            }
        }
    }
}

/// The voices a backend lists when it counts `n` and names every voice:
/// voice `i` carries index `i`, the `i`th name, and the `i`th language, or
/// none where that answer is a failure.
pub open spec fn full_listing(
    n: nat,
    names: Seq<Result<String, Error>>,
    languages: Seq<Result<String, Error>>,
) -> Seq<Voice> {
    Seq::new(
        n,
        |i: int| Voice { id: i as usize, name: names[i]->Ok_0, language: languages[i].ok() },
    )
}

/// The state of an enumeration of `n` voices, every one named, with the
/// first `i` of them listed.
pub open spec fn listed_up_to(
    n: nat,
    names: Seq<Result<String, Error>>,
    languages: Seq<Result<String, Error>>,
    i: int,
) -> ListingState {
    ListingState {
        count: n,
        listed: full_listing(n, names, languages).take(i),
        pending: None,
        failure: None,
    }
}

/// From the state with the first `i` voices listed, answering the queries
/// for the voices up to `m`, each of them named, lists the first `m`.
proof fn lemma_answered_between(
    n: usize,
    names: Seq<Result<String, Error>>,
    languages: Seq<Result<String, Error>>,
    i: nat,
    m: nat,
)
    requires
        i <= m <= n,
        names.len() >= n,
        languages.len() >= n,
        forall|j: int| 0 <= j < m ==> (#[trigger] names[j]) is Ok,
    ensures
        answered(listed_up_to(n as nat, names, languages, i as int), names, languages, (2 * (m - i)) as nat)
            == listed_up_to(n as nat, names, languages, m as int),
    decreases m - i,
{
    let all = full_listing(n as nat, names, languages);
    let s = listed_up_to(n as nat, names, languages, i as int);
    if i < m {
        assert(query_of(s) == VoiceQuery::Name(i as usize));
        let named = after_name(s, names[i as int]);
        assert(query_of(named) == VoiceQuery::Language(i as usize));
        let next = after_language(named, languages[i as int]);
        assert(next.listed =~= all.take(i + 1 as int));
        assert(next == listed_up_to(n as nat, names, languages, i + 1 as int));
        lemma_answered_between(n, names, languages, i + 1, m);
        assert(answered(named, names, languages, (2 * (m - i) - 1) as nat) == answered(
            next,
            names,
            languages,
            (2 * (m - (i + 1))) as nat,
        ));
    }
}

/// Answering `a` and then `b` more queries is answering `a + b` of them.
proof fn lemma_answered_split(
    s: ListingState,
    names: Seq<Result<String, Error>>,
    languages: Seq<Result<String, Error>>,
    a: nat,
    b: nat,
)
    ensures
        answered(s, names, languages, a + b) == answered(
            answered(s, names, languages, a),
            names,
            languages,
            b,
        ),
    decreases a,
{
    if a > 0 {
        match query_of(s) {
            VoiceQuery::Name(i) => lemma_answered_split(after_name(s, names[i as int]), names, languages, (a - 1) as nat, b),
            VoiceQuery::Language(i) => lemma_answered_split(
                after_language(s, languages[i as int]),
                names,
                languages,
                (a - 1) as nat,
                b,
            ),
            VoiceQuery::Finished => {
                assert(answered(s, names, languages, b) == s);
            },
        }
    }
}

/// A backend that counts `n` voices and names each of them yields, after
/// its `2 * n` answers, exactly the voices `0..n` with their names, and each
/// language where it could be read.
pub proof fn lemma_full_listing(
    n: usize,
    names: Seq<Result<String, Error>>,
    languages: Seq<Result<String, Error>>,
)
    requires
        names.len() >= n,
        languages.len() >= n,
        forall|j: int| 0 <= j < n ==> (#[trigger] names[j]) is Ok,
    ensures
        query_of(answered(started(Ok(n)), names, languages, (2 * n) as nat)) is Finished,
        outcome(answered(started(Ok(n)), names, languages, (2 * n) as nat)) == (Ok::<
            Seq<Voice>,
            Error,
        >(full_listing(n as nat, names, languages))),
{
    let all = full_listing(n as nat, names, languages);
    assert(all.take(0) =~= Seq::<Voice>::empty());
    assert(started(Ok(n)) == listed_up_to(n as nat, names, languages, 0));
    lemma_answered_between(n, names, languages, 0, n as nat);
    assert(all.take(n as int) =~= all);
}

/// When the first name a backend cannot give is that of voice `j`, the
/// enumeration ends right after asking for it, with the backend's own error:
/// no other error stands in for it, and no later voice is asked about.
pub proof fn lemma_first_name_failure(
    n: usize,
    names: Seq<Result<String, Error>>,
    languages: Seq<Result<String, Error>>,
    j: nat,
)
    requires
        j < n,
        names.len() >= n,
        languages.len() >= n,
        forall|k: int| 0 <= k < j ==> (#[trigger] names[k]) is Ok,
        names[j as int] is Err,
    ensures
        query_of(answered(started(Ok(n)), names, languages, 2 * j + 1)) is Finished,
        outcome(answered(started(Ok(n)), names, languages, 2 * j + 1)) == (Err::<
            Seq<Voice>,
            Error,
        >(names[j as int]->Err_0)),
{
    let all = full_listing(n as nat, names, languages);
    assert(all.take(0) =~= Seq::<Voice>::empty());
    assert(started(Ok(n)) == listed_up_to(n as nat, names, languages, 0));
    lemma_answered_between(n, names, languages, 0, j);
    lemma_answered_split(started(Ok(n)), names, languages, 2 * j, 1);
    let s = listed_up_to(n as nat, names, languages, j as int);
    assert(query_of(s) == VoiceQuery::Name(j as usize));
    assert(answered(after_name(s, names[j as int]), names, languages, 0) == after_name(s, names[j as int]));
}

/// A backend that cannot count its voices ends the enumeration at once with
/// its own error, whatever else it would answer.
pub proof fn lemma_count_failure(
    e: Error,
    names: Seq<Result<String, Error>>,
    languages: Seq<Result<String, Error>>,
    steps: nat,
)
    ensures
        query_of(started(Err(e))) is Finished,
        answered(started(Err(e)), names, languages, steps) == started(Err(e)),
        outcome(started(Err(e))) == (Err::<Seq<Voice>, Error>(e)),
{
}

} // verus!
