use vstd::prelude::*;

verus! {

/// The unit that closes a number in a duration such as `1h30m`.
#[derive(Debug, Clone, Copy, PartialEq, Eq, Structural)]
pub enum DurationUnit {
    Hours,
    Minutes,
    Seconds,
    /// A trailing number with no unit, counted as seconds.
    Bare,
}

/// One number of a duration with the unit written after it.
#[derive(Debug, Clone, PartialEq, Eq)]
pub struct DurationTerm {
    /// The number's characters: ASCII digits and dots.
    pub number: Vec<char>,
    pub unit: DurationUnit,
}

/// Characters that make up a number: ASCII digits and the decimal dot.
pub open spec fn is_number_char(c: char) -> bool {
    ('0' <= c && c <= '9') || c == '.'
}

/// The unit a letter stands for, if any.
pub open spec fn unit_of(c: char) -> Option<DurationUnit> {
    if c == 'h' {
        Some(DurationUnit::Hours)
    } else if c == 'm' {
        Some(DurationUnit::Minutes)
    } else if c == 's' {
        Some(DurationUnit::Seconds)
    } else {
        None
    }
}

/// The letter written for a unit (a bare number has none).
pub open spec fn unit_text(u: DurationUnit) -> Seq<char> {
    match u {
        DurationUnit::Hours => seq!['h'],
        DurationUnit::Minutes => seq!['m'],
        DurationUnit::Seconds => seq!['s'],
        DurationUnit::Bare => Seq::empty(),
    }
}

/// The text a sequence of terms was read from.
pub open spec fn terms_text(ts: Seq<DurationTerm>) -> Seq<char>
    decreases ts.len(),
{
    if ts.len() == 0 {
        Seq::empty()
    } else {
        terms_text(ts.drop_last()) + ts.last().number@ + unit_text(ts.last().unit)
    }
}

/// Every number is made of number characters, and only the last term may be
/// a bare number, which is then not empty.
pub open spec fn well_split(ts: Seq<DurationTerm>) -> bool {
    forall|i: int|
        0 <= i < ts.len() ==> {
            &&& forall|j: int| 0 <= j < ts[i].number@.len() ==> is_number_char(#[trigger] ts[i].number@[j])
            &&& ts[i].unit == DurationUnit::Bare ==> (i == ts.len() - 1 && ts[i].number@.len() > 0)
        }
}

/// A character that is neither part of a number nor a unit letter.
pub open spec fn is_stray(c: char) -> bool {
    !is_number_char(c) && unit_of(c) is None
}

proof fn lemma_terms_text_push(ts: Seq<DurationTerm>, t: DurationTerm)
    ensures
        terms_text(ts.push(t)) == terms_text(ts) + t.number@ + unit_text(t.unit),
{
    assert(ts.push(t).drop_last() =~= ts);
}

/// Splits a (trimmed) duration such as `1h30m` or `90` into its numbers and
/// units. Fails exactly when a character is neither a digit, a dot nor one of
/// the unit letters `h`, `m`, `s`; on success the terms spell the text back.
pub fn duration_terms(s: &str) -> (r: Option<Vec<DurationTerm>>)
    ensures
        r is None <==> exists|i: int| 0 <= i < s@.len() && is_stray(#[trigger] s@[i]),
        r matches Some(ts) ==> terms_text(ts@) == s@ && well_split(ts@),
{
    let mut terms: Vec<DurationTerm> = Vec::new();
    let mut num_buf: Vec<char> = Vec::new();
    for c in it: s.chars()
        invariant
            it.seq() == s@,
            terms_text(terms@) + num_buf@ == s@.take(it.index() as int),
            well_split(terms@),
            forall|i: int| 0 <= i < terms@.len() ==> (#[trigger] terms@[i]).unit != DurationUnit::Bare,
            forall|j: int| 0 <= j < num_buf@.len() ==> is_number_char(#[trigger] num_buf@[j]),
            forall|j: int| 0 <= j < it.index() ==> !is_stray(#[trigger] s@[j]),
    {
        let ghost k = it.index() as int;
        if ('0' <= c && c <= '9') || c == '.' {
            num_buf.push(c);
            assert(s@.take(k + 1) =~= s@.take(k).push(c));
        } else {
            let unit = if c == 'h' {
                DurationUnit::Hours
            } else if c == 'm' {
                DurationUnit::Minutes
            } else if c == 's' {
                DurationUnit::Seconds
            } else {
                assert(is_stray(s@[k]));
                return None;
            };
            let number = num_buf;
            num_buf = Vec::new();
            let ghost old_terms = terms@;
            terms.push(DurationTerm { number, unit });
            proof {
                lemma_terms_text_push(old_terms, DurationTerm { number, unit });
                assert(s@.take(k + 1) =~= s@.take(k).push(c));
                assert(terms_text(terms@) + num_buf@ =~= s@.take(k + 1));
            }
        }
    }
    if num_buf.len() > 0 {
        let ghost old_terms = terms@;
        let t = DurationTerm { number: num_buf, unit: DurationUnit::Bare };
        terms.push(t);
        proof {
            lemma_terms_text_push(old_terms, t);
        }
    }
    assert(s@.take(s@.len() as int) =~= s@);
    assert(terms_text(terms@) =~= s@);
    Some(terms)
}

} // verus!
