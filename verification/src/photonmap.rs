//! The lines of a photon map file.
//!
//! After two lines for the number of photons and the power of each, a
//! photon map holds one photon per line: the name of its band, the three
//! coordinates of its place and the three of its direction, with one blank
//! between them.
use vstd::prelude::*;
use crate::ray::physics::Wavelength;
use crate::text::{lemma_split_len, slices, split, split_on};

verus! {

/// What a line of a photon map holds: the band that its first word names
/// and the texts of the six numbers behind it.  A line with fewer than
/// seven words, or whose first word names no band, holds no photon; what
/// follows the seventh word is not looked at.
pub open spec fn photon_of_line(line: Seq<char>) -> Option<(Wavelength, Seq<Seq<char>>)> {
    let words = split(line, ' ');
    if words.len() >= 7 {
        match Wavelength::named(words[0]) {
            Some(wl) => Some((wl, words.subrange(1, 7))),
            None => None,
        }
    } else {
        None
    }
}

/// Reads one line of a photon map.
pub fn parse_photon_line<'a>(line: &'a str) -> (r: Option<(Wavelength, Vec<&'a str>)>)
    ensures
        match r {
            Some((wl, nums)) => photon_of_line(line@) == Some((wl, slices(nums@))),
            None => photon_of_line(line@) is None,
        },
{
    let words = split_on(line, ' ');
    assert(slices(words@).len() == words@.len());
    if words.len() < 7 {
        return None;
    }
    assert(slices(words@)[0] == words@[0]@);
    let wl = match Wavelength::from_name(words[0]) {
        Some(wl) => wl,
        None => {
            return None;
        },
    };
    let mut nums: Vec<&'a str> = Vec::new();
    let mut i: usize = 1;
    while i < 7
        invariant
            1 <= i <= 7,
            words.len() >= 7,
            nums.len() == i - 1,
            forall|j: int| 0 <= j < i - 1 ==> (#[trigger] nums[j])@ == words[j + 1]@,
        decreases 7 - i,
    {
        nums.push(words[i]);
        i += 1;
    }
    assert(slices(nums@) =~= slices(words@).subrange(1, 7));
    Some((wl, nums))
}

/// The line of a photon map for a photon of the band `wl` whose six
/// numbers have the texts `nums`.
pub open spec fn line_of_photon(wl: Wavelength, nums: Seq<Seq<char>>) -> Seq<char>
    decreases nums.len(),
{
    if nums.len() == 0 {
        wl.name_of()
    } else {
        line_of_photon(wl, nums.drop_last()) + seq![' '] + nums.last()
    }
}

/// Writes one line of a photon map: the name of the band, and behind it
/// each number after a blank.
pub fn photon_line(wl: &Wavelength, nums: &Vec<&str>) -> (r: String)
    ensures
        r@ == line_of_photon(*wl, slices(nums@)),
{
    let mut s = String::from_str(wl.name());
    let mut i: usize = 0;
    assert(slices(nums@).take(0) =~= Seq::<Seq<char>>::empty());
    while i < nums.len()
        invariant
            i <= nums.len(),
            s@ == line_of_photon(*wl, slices(nums@).take(i as int)),
        decreases nums.len() - i,
    {
        proof {
            reveal_strlit(" ");
            assert(slices(nums@).take(i + 1).drop_last() =~= slices(nums@).take(i as int));
            assert(slices(nums@).take(i + 1).last() == nums@[i as int]@);
        }
        s.append(" ");
        s.append(nums[i]);
        assert(s@ =~= line_of_photon(*wl, slices(nums@).take(i as int)) + seq![' ']
            + nums@[i as int]@);
        i += 1;
    }
    assert(slices(nums@).take(nums.len() as int) =~= slices(nums@));
    s
}

/// No character of the text is a blank.
pub open spec fn unbroken(s: Seq<char>) -> bool {
    forall|i: int| 0 <= i < s.len() ==> #[trigger] s[i] != ' '
}

/// A text without a blank is one word.
pub proof fn lemma_split_word(s: Seq<char>)
    requires
        unbroken(s),
    ensures
        split(s, ' ') == seq![s],
    decreases s.len(),
{
    if s.len() > 0 {
        lemma_split_word(s.drop_last());
        assert(split(s, ' ') =~= seq![s.drop_last().push(s.last())]);
        assert(s.drop_last().push(s.last()) =~= s);
    } else {
        assert(s =~= Seq::<char>::empty());
    }
}

/// A blank and a word behind a text add the word to the words of the text.
pub proof fn lemma_split_append(a: Seq<char>, w: Seq<char>)
    requires
        unbroken(w),
    ensures
        split(a + seq![' '] + w, ' ') == split(a, ' ').push(w),
    decreases w.len(),
{
    let whole = a + seq![' '] + w;
    lemma_split_len(a, ' ');
    if w.len() == 0 {
        assert(whole.drop_last() =~= a);
        assert(w =~= Seq::<char>::empty());
    } else {
        let front = w.drop_last();
        lemma_split_append(a, front);
        assert(whole.drop_last() =~= a + seq![' '] + front);
        assert(whole.last() == w.last());
        assert(front.push(w.last()) =~= w);
        assert(split(a, ' ').push(front).drop_last() =~= split(a, ' '));
    }
}

/// The words of a written line are the name of the band and the numbers.
pub proof fn lemma_line_words(wl: Wavelength, nums: Seq<Seq<char>>)
    requires
        forall|i: int| 0 <= i < nums.len() ==> unbroken(#[trigger] nums[i]),
    ensures
        split(line_of_photon(wl, nums), ' ') == seq![wl.name_of()] + nums,
    decreases nums.len(),
{
    if nums.len() == 0 {
        reveal_strlit("Red");
        reveal_strlit("Green");
        reveal_strlit("Blue");
        lemma_split_word(wl.name_of());
        assert(seq![wl.name_of()] + nums =~= seq![wl.name_of()]);
    } else {
        lemma_line_words(wl, nums.drop_last());
        lemma_split_append(line_of_photon(wl, nums.drop_last()), nums.last());
        assert((seq![wl.name_of()] + nums.drop_last()).push(nums.last()) =~= seq![wl.name_of()]
            + nums);
    }
}

/// A line that was written is read back as it was meant: the line of a
/// photon with six numbers, none of which holds a blank, holds that band
/// and those numbers.
pub proof fn lemma_photon_line_round_trip(wl: Wavelength, nums: Seq<Seq<char>>)
    requires
        nums.len() == 6,
        forall|i: int| 0 <= i < nums.len() ==> unbroken(#[trigger] nums[i]),
    ensures
        photon_of_line(line_of_photon(wl, nums)) == Some((wl, nums)),
{
    lemma_line_words(wl, nums);
    crate::ray::physics::lemma_name_round_trip(wl);
    let words = seq![wl.name_of()] + nums;
    assert(words.subrange(1, 7) =~= nums);
    assert(words[0] == wl.name_of());
}

} // verus!
