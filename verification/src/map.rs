use vstd::prelude::*;
use vstd::string::StrSliceExecFns;
use vstd::string::StringExecFns;
use rand::Rng;

use crate::text::str_eq;

verus! {

/// The symbol at position `i` of the 64-symbol key alphabet
/// (`_`, `-`, the decimal digits, the lower-case letters, the upper-case letters).
pub open spec fn key_char_at(i: int) -> char {
    if i == 0 { '_' }
    else if i == 1 { '-' }
    else if i == 2 { '0' }
    else if i == 3 { '1' }
    else if i == 4 { '2' }
    else if i == 5 { '3' }
    else if i == 6 { '4' }
    else if i == 7 { '5' }
    else if i == 8 { '6' }
    else if i == 9 { '7' }
    else if i == 10 { '8' }
    else if i == 11 { '9' }
    else if i == 12 { 'a' }
    else if i == 13 { 'b' }
    else if i == 14 { 'c' }
    else if i == 15 { 'd' }
    else if i == 16 { 'e' }
    else if i == 17 { 'f' }
    else if i == 18 { 'g' }
    else if i == 19 { 'h' }
    else if i == 20 { 'i' }
    else if i == 21 { 'j' }
    else if i == 22 { 'k' }
    else if i == 23 { 'l' }
    else if i == 24 { 'm' }
    else if i == 25 { 'n' }
    else if i == 26 { 'o' }
    else if i == 27 { 'p' }
    else if i == 28 { 'q' }
    else if i == 29 { 'r' }
    else if i == 30 { 's' }
    else if i == 31 { 't' }
    else if i == 32 { 'u' }
    else if i == 33 { 'v' }
    else if i == 34 { 'w' }
    else if i == 35 { 'x' }
    else if i == 36 { 'y' }
    else if i == 37 { 'z' }
    else if i == 38 { 'A' }
    else if i == 39 { 'B' }
    else if i == 40 { 'C' }
    else if i == 41 { 'D' }
    else if i == 42 { 'E' }
    else if i == 43 { 'F' }
    else if i == 44 { 'G' }
    else if i == 45 { 'H' }
    else if i == 46 { 'I' }
    else if i == 47 { 'J' }
    else if i == 48 { 'K' }
    else if i == 49 { 'L' }
    else if i == 50 { 'M' }
    else if i == 51 { 'N' }
    else if i == 52 { 'O' }
    else if i == 53 { 'P' }
    else if i == 54 { 'Q' }
    else if i == 55 { 'R' }
    else if i == 56 { 'S' }
    else if i == 57 { 'T' }
    else if i == 58 { 'U' }
    else if i == 59 { 'V' }
    else if i == 60 { 'W' }
    else if i == 61 { 'X' }
    else if i == 62 { 'Y' }
    else { 'Z' }
}

/// A character belongs to the key alphabet.
pub open spec fn is_key_char(c: char) -> bool {
    exists|i: int| 0 <= i < 64 && key_char_at(i) == c
}

/// The mapping described by an entry list: a later entry shadows an earlier
/// one with the same key.
pub open spec fn entries_map(s: Seq<(String, String)>) -> Map<Seq<char>, Seq<char>>
    decreases s.len(),
{
    if s.len() == 0 {
        Map::empty()
    } else {
        entries_map(s.drop_last()).insert(s.last().0@, s.last().1@)
    }
}

/// Every key of the mapping has length `len` and stays within the key
/// alphabet: the shape every registry keeps, since keys only ever come from
/// `gen_key`.
pub open spec fn keys_wf(m: Map<Seq<char>, Seq<char>>, len: int) -> bool {
    forall|k: Seq<char>|
        #[trigger] m.contains_key(k) ==> k.len() == len && forall|j: int|
            0 <= j < k.len() ==> is_key_char(#[trigger] k[j])
}

/// The key registry: a write-once-then-read-only mapping from short random
/// keys to the filesystem paths they stand for.
#[derive(Debug, Clone)]
pub struct PathMap {
    key_length: u8,
    entries: Vec<(String, String)>,
}

impl View for PathMap {
    type V = Map<Seq<char>, Seq<char>>;

    closed spec fn view(&self) -> Map<Seq<char>, Seq<char>> {
        entries_map(self.entries@)
    }
}

impl PathMap {
    /// The key length every registration draws its key with.
    pub closed spec fn spec_key_length(&self) -> u8 {
        self.key_length
    }

    pub fn new(key_length: u8) -> (r: Self)
        requires
            key_length >= 1,
        ensures
            r@ == Map::<Seq<char>, Seq<char>>::empty(),
            r.spec_key_length() == key_length,
            keys_wf(r@, key_length as int),
    {
        Self { key_length, entries: Vec::new() }
    }

    /// Get file path from shorten uri
    pub fn get(&self, path: &str) -> (r: Option<&String>)
        ensures
            match r {
                Some(p) => self@.contains_key(path@) && p@ == self@[path@],
                None => !self@.contains_key(path@),
            },
    {
        let mut j = self.entries.len();
        proof {
            assert(self.entries@.take(j as int) =~= self.entries@);
        }
        while j > 0
            invariant
                j <= self.entries@.len(),
                entries_map(self.entries@).contains_key(path@)
                    == entries_map(self.entries@.take(j as int)).contains_key(path@),
                entries_map(self.entries@).contains_key(path@)
                    ==> entries_map(self.entries@)[path@]
                        == entries_map(self.entries@.take(j as int))[path@],
            decreases j,
        {
            j -= 1;
            proof {
                assert(self.entries@.take(j + 1).drop_last() =~= self.entries@.take(j as int));
                assert(self.entries@.take(j + 1).last() == self.entries@[j as int]);
            }
            if str_eq(self.entries[j].0.as_str(), path) {
                return Some(&self.entries[j].1);
            }
        }
        proof {
            assert(self.entries@.take(0) =~= Seq::<(String, String)>::empty());
        }
        None
    }

    /// Register new path and return path
    pub fn register(&mut self, path: String) -> (key: String)
        ensures
            final(self)@ == old(self)@.insert(key@, path@),
            final(self).spec_key_length() == old(self).spec_key_length(),
            key@.len() == old(self).spec_key_length() as int,
            forall|i: int| 0 <= i < key@.len() ==> is_key_char(#[trigger] key@[i]),
            keys_wf(old(self)@, old(self).spec_key_length() as int)
                ==> keys_wf(final(self)@, final(self).spec_key_length() as int),
    {
        let key = gen_key(self.key_length as usize);
        let ghost entries_before = self.entries@;
        self.entries.push((key.clone(), path));
        proof {
            assert(self.entries@.drop_last() =~= entries_before);
        }
        key
    }
}

/// Draw a key of `size` characters, each chosen independently from the
/// 64-symbol key alphabet.
pub fn gen_key(size: usize) -> (key: String)
    ensures
        key@.len() == size as int,
        forall|i: int| 0 <= i < key@.len() ==> is_key_char(#[trigger] key@[i]),
{
    let mut key = String::new();
    let mut rng = fresh_rng();
    let mut n: usize = 0;
    while n < size
        invariant
            n <= size,
            key@.len() == n as int,
            forall|i: int| 0 <= i < key@.len() ==> is_key_char(#[trigger] key@[i]),
        decreases size - n,
    {
        let idx = rand_index_below(&mut rng, 64);
        let s = key_char_str(idx);
        key.append(s);
        proof {
            assert(key@.last() == key_char_at(idx as int));
            assert(is_key_char(key@.last()));
        }
        n += 1;
    }
    key
}

/// The key alphabet as executable code: the one-character string at
/// position `i`.
fn key_char_str(i: usize) -> (s: &'static str)
    requires
        i < 64,
    ensures
        s@.len() == 1,
        s@[0] == key_char_at(i as int),
{
    match i {
        0 => { proof { reveal_strlit("_"); } "_" }
        1 => { proof { reveal_strlit("-"); } "-" }
        2 => { proof { reveal_strlit("0"); } "0" }
        3 => { proof { reveal_strlit("1"); } "1" }
        4 => { proof { reveal_strlit("2"); } "2" }
        5 => { proof { reveal_strlit("3"); } "3" }
        6 => { proof { reveal_strlit("4"); } "4" }
        7 => { proof { reveal_strlit("5"); } "5" }
        8 => { proof { reveal_strlit("6"); } "6" }
        9 => { proof { reveal_strlit("7"); } "7" }
        10 => { proof { reveal_strlit("8"); } "8" }
        11 => { proof { reveal_strlit("9"); } "9" }
        12 => { proof { reveal_strlit("a"); } "a" }
        13 => { proof { reveal_strlit("b"); } "b" }
        14 => { proof { reveal_strlit("c"); } "c" }
        15 => { proof { reveal_strlit("d"); } "d" }
        16 => { proof { reveal_strlit("e"); } "e" }
        17 => { proof { reveal_strlit("f"); } "f" }
        18 => { proof { reveal_strlit("g"); } "g" }
        19 => { proof { reveal_strlit("h"); } "h" }
        20 => { proof { reveal_strlit("i"); } "i" }
        21 => { proof { reveal_strlit("j"); } "j" }
        22 => { proof { reveal_strlit("k"); } "k" }
        23 => { proof { reveal_strlit("l"); } "l" }
        24 => { proof { reveal_strlit("m"); } "m" }
        25 => { proof { reveal_strlit("n"); } "n" }
        26 => { proof { reveal_strlit("o"); } "o" }
        27 => { proof { reveal_strlit("p"); } "p" }
        28 => { proof { reveal_strlit("q"); } "q" }
        29 => { proof { reveal_strlit("r"); } "r" }
        30 => { proof { reveal_strlit("s"); } "s" }
        31 => { proof { reveal_strlit("t"); } "t" }
        32 => { proof { reveal_strlit("u"); } "u" }
        33 => { proof { reveal_strlit("v"); } "v" }
        34 => { proof { reveal_strlit("w"); } "w" }
        35 => { proof { reveal_strlit("x"); } "x" }
        36 => { proof { reveal_strlit("y"); } "y" }
        37 => { proof { reveal_strlit("z"); } "z" }
        38 => { proof { reveal_strlit("A"); } "A" }
        39 => { proof { reveal_strlit("B"); } "B" }
        40 => { proof { reveal_strlit("C"); } "C" }
        41 => { proof { reveal_strlit("D"); } "D" }
        42 => { proof { reveal_strlit("E"); } "E" }
        43 => { proof { reveal_strlit("F"); } "F" }
        44 => { proof { reveal_strlit("G"); } "G" }
        45 => { proof { reveal_strlit("H"); } "H" }
        46 => { proof { reveal_strlit("I"); } "I" }
        47 => { proof { reveal_strlit("J"); } "J" }
        48 => { proof { reveal_strlit("K"); } "K" }
        49 => { proof { reveal_strlit("L"); } "L" }
        50 => { proof { reveal_strlit("M"); } "M" }
        51 => { proof { reveal_strlit("N"); } "N" }
        52 => { proof { reveal_strlit("O"); } "O" }
        53 => { proof { reveal_strlit("P"); } "P" }
        54 => { proof { reveal_strlit("Q"); } "Q" }
        55 => { proof { reveal_strlit("R"); } "R" }
        56 => { proof { reveal_strlit("S"); } "S" }
        57 => { proof { reveal_strlit("T"); } "T" }
        58 => { proof { reveal_strlit("U"); } "U" }
        59 => { proof { reveal_strlit("V"); } "V" }
        60 => { proof { reveal_strlit("W"); } "W" }
        61 => { proof { reveal_strlit("X"); } "X" }
        62 => { proof { reveal_strlit("Y"); } "Y" }
        _ => { proof { reveal_strlit("Z"); } "Z" }
    }
}

/// Registering a path and resolving the returned key immediately afterwards
/// gives back that very path: a lookup in a mapping extended with the new
/// binding yields the bound value.
pub proof fn lemma_register_then_resolve(m: Map<Seq<char>, Seq<char>>, k: Seq<char>, p: Seq<char>)
    ensures
        m.insert(k, p).contains_key(k),
        m.insert(k, p)[k] == p,
{
}

#[verifier::external_type_specification]
#[verifier::external_body]
pub struct ExThreadRng(rand::rngs::ThreadRng);

/// Relies on rand::thread_rng: hands back a handle to the thread-local
/// random number generator.
#[verifier::external_body]
fn fresh_rng() -> rand::rngs::ThreadRng {
    rand::thread_rng()
}

/// Relies on rand::Rng::gen_range on the half-open range below `bound`:
/// it panics only on an empty range and returns a value of the range,
/// uniformly distributed.
#[verifier::external_body]
fn rand_index_below(rng: &mut rand::rngs::ThreadRng, bound: usize) -> (r: usize)
    requires
        bound >= 1,
    ensures
        r < bound,
{
    rng.gen_range(0..bound)
}

} // verus!
