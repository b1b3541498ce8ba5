//! The per-game registry: one loaded driver per game name.
//!
//! The registry is an explicit application-lifetime object, built once
//! from the loaded games and read for the remainder of the process.  There
//! is no update or remove operation: a changed manifest requires a fresh
//! build.  It reuses the linear association table of [`crate::cache`]:
//! name equality defines identity and at most one entry exists per name.

use vstd::prelude::*;

use crate::cache::{cache_model, lemma_cache_model_at, lemma_cache_model_miss,
    lemma_cache_model_update};
use crate::integrations::Game;

verus! {

/// The table of loaded games, keyed by game directory name.
#[derive(Debug)]
pub struct Registry {
    games: Vec<(String, Game)>,
}

impl Registry {
    /// The entries in insertion order.
    pub closed spec fn entries(self) -> Seq<(String, Game)> {
        self.games@
    }

    /// Names are unique and every held game is well formed.
    pub closed spec fn wf(self) -> bool {
        &&& forall|p: int, q: int|
            0 <= p < q < self.games@.len() ==> (#[trigger] self.games@[p]).0@ != (
            #[trigger] self.games@[q]).0@
        &&& forall|i: int| 0 <= i < self.games@.len() ==> (#[trigger] self.games@[i]).1.wf()
    }

    /// The name-to-game map this registry holds.
    pub closed spec fn model(self) -> Map<Seq<char>, Game> {
        cache_model(self.games@)
    }

    /// How many games are registered.
    pub fn len(&self) -> (r: usize)
        ensures
            r == self.entries().len(),
    {
        self.games.len()
    }

    /// The name under position `i`.
    pub fn name_at(&self, i: usize) -> (r: &String)
        requires
            i < self.entries().len(),
        ensures
            *r == self.entries()[i as int].0,
    {
        &self.games[i].0
    }

    /// The game under position `i`, for reading.
    pub fn game_at(&self, i: usize) -> (r: &Game)
        requires
            i < self.entries().len(),
        ensures
            *r == self.entries()[i as int].1,
            self.wf() ==> r.wf(),
    {
        &self.games[i].1
    }

    /// The game under position `i`, for calling its memoized operations.
    /// The name under `i` stays; the registry afterwards holds whatever
    /// the caller left behind the reference.
    pub fn game_at_mut(&mut self, i: usize) -> (r: &mut Game)
        requires
            i < old(self).entries().len(),
        ensures
            *r == old(self).entries()[i as int].1,
            old(self).wf() ==> old(self).entries()[i as int].1.wf(),
            final(self).entries() =~= old(self).entries().update(
                i as int,
                (old(self).entries()[i as int].0, *final(r)),
            ),
            old(self).wf() && final(r).wf() ==> final(self).wf(),
    {
        &mut self.games[i].1
    }

    /// Build the registry once: insert every loaded game under its name.
    /// A name given twice keeps its last game.
    pub fn init(games: Vec<(String, Game)>) -> (r: Registry)
        requires
            forall|i: int| 0 <= i < games@.len() ==> (#[trigger] games@[i]).1.wf(),
        ensures
            r.wf(),
            r.model() =~= cache_model(games@),
    {
        let mut registry = Registry { games: Vec::new() };
        let mut games = games;
        let ghost all = games@;
        // Insert back to front by popping, so each game is moved, not
        // copied: the last occurrence of a name must win, so the front
        // ones are inserted first.
        let mut taken: Vec<(String, Game)> = Vec::new();
        while games.len() > 0
            invariant
                taken@.len() + games@.len() == all.len(),
                forall|j: int| 0 <= j < games@.len() ==> all[j] == #[trigger] games@[j],
                forall|j: int|
                    0 <= j < taken@.len() ==> all[all.len() - 1 - j] == #[trigger] taken@[j],
            decreases games.len(),
        {
            let entry = games.pop().unwrap();
            taken.push(entry);
        }
        // `taken` holds the entries in reverse; insert from its back to
        // keep the insertion order.
        while taken.len() > 0
            invariant
                registry.wf(),
                taken@.len() <= all.len(),
                forall|j: int|
                    0 <= j < taken@.len() ==> all[all.len() - 1 - j] == #[trigger] taken@[j],
                forall|i: int| 0 <= i < all.len() ==> (#[trigger] all[i]).1.wf(),
                registry.model() =~= cache_model(all.take(all.len() - taken@.len())),
            decreases taken.len(),
        {
            let ghost done: int = all.len() - taken@.len();
            let entry = taken.pop().unwrap();
            proof {
                assert(all[done] == entry);
            }
            registry.insert(entry.0, entry.1);
            proof {
                assert(all.take(done + 1).drop_last() =~= all.take(done));
                assert(all.take(done + 1).last() == entry);
                assert(cache_model(all.take(done + 1)) == cache_model(all.take(done)).insert(
                    entry.0@,
                    entry.1,
                ));
            }
        }
        proof {
            assert(all.take(all.len() as int) =~= all);
        }
        registry
    }

    /// Store `game` under `name`: overwrite the entry holding an equal
    /// name, else append a fresh one.
    fn insert(&mut self, name: String, game: Game)
        requires
            old(self).wf(),
            game.wf(),
        ensures
            final(self).wf(),
            final(self).model() =~= old(self).model().insert(name@, game),
    {
        let n = self.games.len();
        for i in 0..n
            invariant
                n == self.games.len(),
                self.wf(),
                self == old(self),
                game.wf(),
                forall|j: int| 0 <= j < i ==> (#[trigger] self.games@[j]).0@ != name@,
        {
            if self.games[i].0 == *&name {
                proof {
                    lemma_cache_model_update(self.games@, i as int, name, game);
                }
                self.games.set(i, (name, game));
                proof {
                    assert forall|p: int, q: int|
                        0 <= p < q < self.games@.len() implies (#[trigger] self.games@[p]).0@ != (
                    #[trigger] self.games@[q]).0@ by {
                        assert(old(self).games@[p].0@ != old(self).games@[q].0@);
                    }
                }
                return ;
            }
        }
        proof {
            lemma_cache_model_miss(self.games@, name@);
        }
        let ghost before = self.games@;
        self.games.push((name, game));
        proof {
            assert(self.games@.drop_last() =~= before);
            assert forall|p: int, q: int|
                0 <= p < q < self.games@.len() implies (#[trigger] self.games@[p]).0@ != (
            #[trigger] self.games@[q]).0@ by {
                if q < before.len() {
                    assert(before[p].0@ != before[q].0@);
                } else {
                    assert(before[p].0@ != self.games@[q].0@);
                }
            }
        }
    }

    /// The registered game of that name, if any.
    pub fn get(&self, name: &String) -> (r: Option<&Game>)
        requires
            self.wf(),
        ensures
            match r {
                Some(g) => self.model().contains_key(name@) && *g == self.model()[name@]
                    && g.wf(),
                None => !self.model().contains_key(name@),
            },
    {
        for i in 0..self.games.len()
            invariant
                self.wf(),
                forall|j: int| 0 <= j < i ==> (#[trigger] self.games@[j]).0@ != name@,
        {
            if self.games[i].0 == *name {
                proof {
                    lemma_cache_model_at(self.games@, i as int);
                }
                return Some(&self.games[i].1);
            }
        }
        proof {
            lemma_cache_model_miss(self.games@, name@);
        }
        None
    }

    /// The registered game of a name the caller already knows is held —
    /// one that came from a prior listing, never from unvalidated input.
    pub fn get_unsafe(&self, name: &String) -> (r: &Game)
        requires
            self.wf(),
            self.model().contains_key(name@),
        ensures
            *r == self.model()[name@],
            r.wf(),
    {
        proof {
            if self.games@.len() == 0 {
                assert(self.model() =~= Map::<Seq<char>, Game>::empty());
            }
        }
        let n = self.games.len();
        let mut i: usize = 0;
        loop
            invariant
                self.wf(),
                self.model().contains_key(name@),
                n == self.games@.len(),
                0 <= i < n,
                forall|j: int| 0 <= j < i ==> (#[trigger] self.games@[j]).0@ != name@,
            decreases self.games@.len() - i,
        {
            if self.games[i].0 == *name {
                proof {
                    lemma_cache_model_at(self.games@, i as int);
                }
                return &self.games[i].1;
            }
            i = i + 1;
            proof {
                if i == self.games@.len() {
                    lemma_cache_model_miss(self.games@, name@);
                }
            }
        }
    }

    /// Every registered game with its name, in insertion order.
    pub fn list(&self) -> (r: &Vec<(String, Game)>)
        ensures
            r@ == self.entries(),
    {
        &self.games
    }
}

} // verus!
