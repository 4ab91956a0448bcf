use vstd::prelude::*;
use vstd::multiset::Multiset;
use markov::Chain;

verus! {

/// A Markov chain of strings from `markov`, held opaque: Verus knows of it
/// only what `chain_corpus` and the functions below state.
#[verifier::external_body]
pub struct NameChain {
    chain: Chain<String>,
}

/// The texts that a chain of strings has been fed, each counted once per feed.
pub uninterp spec fn chain_corpus(c: NameChain) -> Multiset<Seq<char>>;

/// Relies on `markov::Chain::new`: a fresh chain has been fed nothing.
#[verifier::external_body]
fn empty_chain() -> (c: NameChain)
    ensures
        chain_corpus(c) == Multiset::<Seq<char>>::empty(),
{
    NameChain { chain: Chain::new() }
}

/// Relies on `markov::Chain::feed_str`: the text, split at spaces, is fed to
/// the chain as one more token sequence.
#[verifier::external_body]
fn feed_chain(c: &mut NameChain, text: &str)
    ensures
        chain_corpus(*final(c)) == chain_corpus(*old(c)).insert(text@),
{
    c.chain.feed_str(text);
}

/// Every text of `corpus` is a single word: it holds no space.
pub open spec fn one_word_texts(corpus: Multiset<Seq<char>>) -> bool {
    forall|t: Seq<char>| #[trigger] corpus.count(t) > 0 ==> !t.contains(' ')
}

/// What is known of any string a chain fed `corpus` can produce: where every
/// text was one word, the walk goes from the start straight to one text and
/// ends, so the string is one of the texts.
pub open spec fn drawable(corpus: Multiset<Seq<char>>, s: Seq<char>) -> bool {
    one_word_texts(corpus) ==> corpus.count(s) > 0
}

/// Relies on `markov::Chain::generate_str`: draws one string with the
/// thread's own random generator; on a chain fed nothing it panics, so the
/// chain must have been fed. Of the string drawn only `drawable` is promised:
/// fed one-word texts alone, the chain's walk yields a single fed text.
#[verifier::external_body]
fn draw_from_chain(c: &NameChain) -> (r: String)
    requires
        chain_corpus(*c).len() > 0,
    ensures
        drawable(chain_corpus(*c), r@),
{
    c.chain.generate_str()
}

/// Number of draws one call of `NameGen::generate` makes before it gives up.
pub const MAX_TRIES: usize = 1000;

/// The name generator has used up its tries without finding an unused name.
#[derive(Clone, Copy, Debug, PartialEq, Eq)]
pub struct Exhausted;

/// Name generator that draws names from a Markov chain trained on example
/// names, and never hands out the same name twice.
pub struct NameGen {
    cache: Vec<String>,
    chain: NameChain,
    draws: Ghost<Seq<Seq<char>>>,
}

impl NameGen {
    /// The names handed out so far, in order.
    pub closed spec fn emitted(&self) -> Seq<Seq<char>> {
        self.cache@.map_values(|s: String| s@)
    }

    /// The example names the model was trained on.
    pub closed spec fn corpus(&self) -> Multiset<Seq<char>> {
        chain_corpus(self.chain)
    }

    /// Every string drawn from the model so far, taken or not, in order.
    pub closed spec fn draws(&self) -> Seq<Seq<char>> {
        self.draws@
    }

    /// The strings drawn since the generator was in state `before`.
    pub open spec fn draws_since(&self, before: &NameGen) -> Seq<Seq<char>> {
        self.draws().subrange(before.draws().len() as int, self.draws().len() as int)
    }

    /// No name was handed out twice.
    pub open spec fn wf(&self) -> bool {
        self.emitted().no_duplicates()
    }

    /// An untrained generator that has handed out nothing.
    pub fn new() -> (r: NameGen)
        ensures
            r.wf(),
            r.emitted() == Seq::<Seq<char>>::empty(),
            r.corpus() == Multiset::<Seq<char>>::empty(),
            r.draws() == Seq::<Seq<char>>::empty(),
    {
        let r = NameGen { cache: Vec::new(), chain: empty_chain(), draws: Ghost(Seq::empty()) };
        assert(r.emitted() =~= Seq::<Seq<char>>::empty());
        r
    }

    /// Trains the model on one more example name.
    pub fn train(&mut self, name: &str)
        ensures
            final(self).corpus() == old(self).corpus().insert(name@),
            final(self).emitted() == old(self).emitted(),
            final(self).draws() == old(self).draws(),
    {
        feed_chain(&mut self.chain, name);
    }

    /// Whether `name` was handed out already.
    pub fn was_emitted(&self, name: &String) -> (r: bool)
        ensures
            r == self.emitted().contains(name@),
    {
        let mut i: usize = 0;
        while i < self.cache.len()
            invariant
                i <= self.cache@.len(),
                forall|j: int| 0 <= j < i ==> self.emitted()[j] != name@,
            decreases self.cache@.len() - i,
        {
            if self.cache[i] == *name {
                assert(self.emitted()[i as int] == name@);
                return true;
            }
            i += 1;
        }
        false
    }

    /// Takes `candidate` as the next name if it was not handed out before.
    /// Returns whether it was taken.
    pub fn record(&mut self, candidate: &String) -> (r: bool)
        requires
            old(self).wf(),
        ensures
            final(self).wf(),
            r == !old(self).emitted().contains(candidate@),
            r ==> final(self).emitted() == old(self).emitted().push(candidate@),
            !r ==> final(self).emitted() == old(self).emitted(),
            final(self).corpus() == old(self).corpus(),
            final(self).draws() == old(self).draws(),
    {
        if self.was_emitted(candidate) {
            false
        } else {
            self.cache.push(candidate.clone());
            assert(self.emitted() =~= old(self).emitted().push(candidate@));
            true
        }
    }

    /// Draws names from the model until one was not handed out before, at
    /// most `MAX_TRIES` times. The first fresh draw is recorded and returned;
    /// when all `MAX_TRIES` draws repeat earlier names the call fails with
    /// `Exhausted` and records nothing. With no name handed out yet the first
    /// draw is taken.
    pub fn generate(&mut self) -> (r: Result<String, Exhausted>)
        requires
            old(self).wf(),
            old(self).corpus().len() > 0,
        ensures
            final(self).wf(),
            final(self).corpus() == old(self).corpus(),
            final(self).draws().len() >= old(self).draws().len(),
            final(self).draws().subrange(0, old(self).draws().len() as int) == old(self).draws(),
            1 <= final(self).draws_since(old(self)).len() <= MAX_TRIES,
            forall|k: int|
                0 <= k < final(self).draws_since(old(self)).len() ==> drawable(
                    old(self).corpus(),
                    #[trigger] final(self).draws_since(old(self))[k],
                ),
            match r {
                Ok(name) => {
                    &&& name@ == final(self).draws_since(old(self)).last()
                    &&& forall|k: int|
                        0 <= k < final(self).draws_since(old(self)).len() - 1
                            ==> old(self).emitted().contains(
                            #[trigger] final(self).draws_since(old(self))[k],
                        )
                    &&& !old(self).emitted().contains(name@)
                    &&& drawable(old(self).corpus(), name@)
                    &&& final(self).emitted() == old(self).emitted().push(name@)
                },
                Err(_) => {
                    &&& final(self).draws_since(old(self)).len() == MAX_TRIES
                    &&& forall|k: int|
                        0 <= k < MAX_TRIES ==> old(self).emitted().contains(
                            #[trigger] final(self).draws_since(old(self))[k],
                        )
                    &&& final(self).emitted() == old(self).emitted()
                    &&& old(self).emitted().len() > 0
                },
            },
    {
        let ghost start = self.draws();
        let mut tries: usize = 0;
        while tries < MAX_TRIES
            invariant
                self.wf(),
                self.corpus() == old(self).corpus(),
                self.corpus().len() > 0,
                self.emitted() == old(self).emitted(),
                start == old(self).draws(),
                tries <= MAX_TRIES,
                self.draws().len() == start.len() + tries,
                self.draws().subrange(0, start.len() as int) == start,
                tries > 0 ==> old(self).emitted().len() > 0,
                forall|k: int|
                    start.len() <= k < self.draws().len() ==> old(self).emitted().contains(
                        #[trigger] self.draws()[k],
                    ),
                forall|k: int|
                    start.len() <= k < self.draws().len() ==> drawable(
                        old(self).corpus(),
                        #[trigger] self.draws()[k],
                    ),
            decreases MAX_TRIES - tries,
        {
            let name = draw_from_chain(&self.chain);
            self.draws = Ghost(self.draws@.push(name@));
            assert(self.draws().subrange(0, start.len() as int) =~= start);
            if self.record(&name) {
                proof {
                    let since = self.draws_since(old(self));
                    assert(since.last() == name@);
                    assert forall|k: int| 0 <= k < since.len() - 1 implies old(
                        self,
                    ).emitted().contains(#[trigger] since[k]) by {
                        assert(since[k] == self.draws()[start.len() + k]);
                    }
                    assert forall|k: int| 0 <= k < since.len() implies drawable(
                        old(self).corpus(),
                        #[trigger] since[k],
                    ) by {
                        assert(since[k] == self.draws()[start.len() + k]);
                    }
                }
                return Ok(name);
            }
            tries += 1;
        }
        proof {
            let since = self.draws_since(old(self));
            assert(since.len() == MAX_TRIES);
            assert forall|k: int| 0 <= k < MAX_TRIES implies old(self).emitted().contains(
                #[trigger] since[k],
            ) by {
                assert(since[k] == self.draws()[start.len() + k]);
            }
            assert forall|k: int| 0 <= k < since.len() implies drawable(
                old(self).corpus(),
                #[trigger] since[k],
            ) by {
                assert(since[k] == self.draws()[start.len() + k]);
            }
        }
        Err(Exhausted)
    }
}

/// A model trained on one-word examples can produce no name but those
/// examples: once every example has been handed out, every string drawn
/// repeats an earlier name, so `generate` can only end in `Exhausted`.
pub proof fn lemma_one_word_corpus_used_up(g: NameGen, drawn: Seq<char>)
    requires
        one_word_texts(g.corpus()),
        forall|t: Seq<char>| #[trigger] g.corpus().count(t) > 0 ==> g.emitted().contains(t),
        drawable(g.corpus(), drawn),
    ensures
        g.emitted().contains(drawn),
{
}

} // verus!
