//! Puzzles, and the cache that hands them out one by one between two visits
//! to the puzzle database.

use vstd::prelude::*;
use std::collections::VecDeque;
use crate::error::Error;

verus! {

/// One puzzle of the database.
#[derive(Debug, Clone, PartialEq, Eq)]
pub struct Puzzle {
    pub id: i32,
    pub fen: String,
    pub moves: String,
    pub rating: i32,
    pub rating_deviation: i32,
    pub popularity: i32,
    pub nb_plays: i32,
}

/// How many puzzles a cache holds at most, unless told otherwise.
pub const DEFAULT_CACHE_SIZE: usize = 20;

/// Puzzles loaded from the database, handed out in order.
#[derive(Debug)]
pub struct PuzzleCache {
    /// The puzzles that were loaded last.
    pub cache: VecDeque<Puzzle>,
    /// How many of them have been handed out.
    pub counter: usize,
    /// The lowest rating that was asked for when the puzzles were loaded.
    pub min_rating: u16,
    /// The highest rating that was asked for when the puzzles were loaded.
    pub max_rating: u16,
    /// How many puzzles are loaded at once.
    pub cache_size: usize,
    /// Whether the puzzles were loaded in random order.
    pub random: bool,
}

/// Information about a puzzle database.
#[derive(Debug, Clone, PartialEq, Eq)]
pub struct PuzzleDatabaseInfo {
    /// The name of the database's file.
    pub title: String,
    pub description: String,
    /// How many puzzles the database holds.
    pub puzzle_count: i32,
    /// The size of the database's file in bytes.
    pub storage_size: i32,
    /// The full path of the database's file.
    pub path: String,
}

impl PuzzleCache {
    /// An empty cache for `DEFAULT_CACHE_SIZE` puzzles in random order.
    pub fn new() -> (r: PuzzleCache)
        ensures
            r.cache@.len() == 0,
            r.counter == 0,
            r.min_rating == 0,
            r.max_rating == 0,
            r.cache_size == DEFAULT_CACHE_SIZE,
            r.random,
    {
        PuzzleCache {
            cache: VecDeque::new(),
            counter: 0,
            min_rating: 0,
            max_rating: 0,
            cache_size: DEFAULT_CACHE_SIZE,
            random: true,
        }
    }

    /// The same cache, for `size` puzzles at once.
    pub fn with_cache_size(self, size: usize) -> (r: PuzzleCache)
        ensures
            r.cache_size == size,
            r.cache == self.cache,
            r.counter == self.counter,
            r.min_rating == self.min_rating,
            r.max_rating == self.max_rating,
            r.random == self.random,
    {
        let mut r = self;
        r.cache_size = size;
        r
    }

    /// Whether the next request has to go to the database: the cache is empty,
    /// it has handed out as many puzzles as it loads at once, or it was loaded
    /// for another rating range or another order.
    pub open spec fn stale(self, min_rating: u16, max_rating: u16, random: bool) -> bool {
        self.cache@.len() == 0 || self.min_rating != min_rating || self.max_rating != max_rating
            || self.random != random || self.counter >= self.cache_size
    }

    /// Whether the puzzles have to be loaded anew before the next one is handed out.
    pub fn needs_reload(&self, min_rating: u16, max_rating: u16, random: bool) -> (r: bool)
        ensures
            r == self.stale(min_rating, max_rating, random),
    {
        self.cache.len() == 0 || self.min_rating != min_rating || self.max_rating != max_rating
            || self.random != random || self.counter >= self.cache_size
    }

    /// Replaces the cache by puzzles that were loaded for a rating range and an order,
    /// and starts handing out from the first.
    pub fn refill(&mut self, puzzles: Vec<Puzzle>, min_rating: u16, max_rating: u16, random: bool)
        ensures
            final(self).cache@ == puzzles@,
            final(self).counter == 0,
            final(self).min_rating == min_rating,
            final(self).max_rating == max_rating,
            final(self).random == random,
            final(self).cache_size == old(self).cache_size,
    {
        let mut queue: VecDeque<Puzzle> = VecDeque::new();
        let mut i: usize = 0;
        while i < puzzles.len()
            invariant
                i <= puzzles@.len(),
                queue@ == puzzles@.take(i as int),
            decreases puzzles@.len() - i,
        {
            queue.push_back(puzzles[i].duplicate());
            i = i + 1;
            assert(queue@ =~= puzzles@.take(i as int));
        }
        assert(puzzles@.take(puzzles@.len() as int) =~= puzzles@);
        self.cache = queue;
        self.counter = 0;
        self.min_rating = min_rating;
        self.max_rating = max_rating;
        self.random = random;
    }

    /// Hands out the next puzzle of the cache, or `None` when all have been handed out.
    pub fn get_next_puzzle(&mut self) -> (r: Option<&Puzzle>)
        ensures
            final(self).cache == old(self).cache,
            final(self).cache_size == old(self).cache_size,
            final(self).min_rating == old(self).min_rating,
            final(self).max_rating == old(self).max_rating,
            final(self).random == old(self).random,
            old(self).counter < old(self).cache@.len() ==> r == Some(
                &old(self).cache@[old(self).counter as int],
            ) && final(self).counter == old(self).counter + 1,
            old(self).counter >= old(self).cache@.len() ==> r.is_none() && final(self).counter
                == old(self).counter,
    {
        if self.counter < self.cache.len() {
            let at: usize = self.counter;
            self.counter = at + 1;
            Some(&self.cache[at])
        } else {
            None
        }
    }
}

impl Puzzle {
    pub fn duplicate(&self) -> (r: Puzzle)
        ensures
            r == *self,
    {
        Puzzle {
            id: self.id,
            fen: self.fen.clone(),
            moves: self.moves.clone(),
            rating: self.rating,
            rating_deviation: self.rating_deviation,
            popularity: self.popularity,
            nb_plays: self.nb_plays,
        }
    }
}

/// Hands out the next puzzle for a rating range and an order.
///
/// `loaded` holds what the database gave, where the cache had to be loaded anew
/// (see `needs_reload`); the cache is then replaced by it first. Fails with
/// `NoPuzzles` where the cache has no puzzle left to hand out.
pub fn get_puzzle(
    cache: &mut PuzzleCache,
    loaded: Option<Vec<Puzzle>>,
    min_rating: u16,
    max_rating: u16,
    random: bool,
) -> (r: Result<Puzzle, Error>)
    ensures
        final(cache).cache_size == old(cache).cache_size,
        match loaded {
            Some(puzzles) => {
                &&& final(cache).cache@ == puzzles@
                &&& final(cache).min_rating == min_rating
                &&& final(cache).max_rating == max_rating
                &&& final(cache).random == random
                &&& match r {
                    Ok(p) => puzzles@.len() > 0 && p == puzzles@[0] && final(cache).counter == 1,
                    Err(e) => puzzles@.len() == 0 && e == Error::NoPuzzles && final(cache).counter
                        == 0,
                }
            },
            None => {
                &&& final(cache).cache == old(cache).cache
                &&& final(cache).min_rating == old(cache).min_rating
                &&& final(cache).max_rating == old(cache).max_rating
                &&& final(cache).random == old(cache).random
                &&& match r {
                    Ok(p) => old(cache).counter < old(cache).cache@.len() && p == old(
                        cache,
                    ).cache@[old(cache).counter as int] && final(cache).counter == old(
                        cache,
                    ).counter + 1,
                    Err(e) => old(cache).counter >= old(cache).cache@.len() && e
                        == Error::NoPuzzles && final(cache).counter == old(cache).counter,
                }
            },
        },
{
    match loaded {
        Some(puzzles) => {
            cache.refill(puzzles, min_rating, max_rating, random);
        },
        None => {},
    }
    match cache.get_next_puzzle() {
        Some(p) => Ok(p.duplicate()),
        None => Err(Error::NoPuzzles),
    }
}

/// The number `n` cut down to its lowest 32 bits and read with a sign.
pub open spec fn low_bits(n: int) -> i32 {
    let m = n % 0x1_0000_0000;
    if m >= 0x8000_0000 {
        (m - 0x1_0000_0000) as i32
    } else {
        m as i32
    }
}

impl PuzzleDatabaseInfo {
    /// Describes a database by the name and path of its file, the number of its
    /// puzzles and the size of the file, both cut down to 32 bits.
    pub fn describe(file_name: String, path: String, puzzle_count: i64, file_size: u64) -> (r:
        PuzzleDatabaseInfo)
        ensures
            r.title == file_name,
            r.path == path,
            r.description@.len() == 0,
            r.puzzle_count == low_bits(puzzle_count as int),
            r.storage_size == low_bits(file_size as int),
    {
        let count: i32 = #[verifier::truncate]
        (puzzle_count as i32);
        let size: i32 = #[verifier::truncate]
        (file_size as i32);
        assert(count == low_bits(puzzle_count as int)) by (bit_vector)
            requires
                count == #[verifier::truncate]
                (puzzle_count as i32),
        ;
        assert(size == low_bits(file_size as int)) by (bit_vector)
            requires
                size == #[verifier::truncate]
                (file_size as i32),
        ;
        PuzzleDatabaseInfo {
            title: file_name,
            description: String::new(),
            puzzle_count: count,
            storage_size: size,
            path,
        }
    }
}

} // verus!
