//! The redaction option of the transcription client: a comma-separated list
//! of entity names or categories, normalised before it goes on the URL.
use vstd::prelude::*;
use crate::text::{split_char, trim, trimmed_of, to_lowercase, lowercase_of, split_on, views};

verus! {

/// The lowercased, trimmed, non-empty items among `parts`, in order.
pub open spec fn redact_candidates(parts: Seq<Seq<char>>) -> Seq<Seq<char>>
    decreases parts.len(),
{
    if parts.len() == 0 {
        Seq::empty()
    } else {
        let rest = redact_candidates(parts.drop_last());
        let t = trimmed_of(parts.last());
        if t.len() == 0 {
            rest
        } else {
            rest.push(lowercase_of(t))
        }
    }
}

/// `s` with every repeated item after its first occurrence removed.
pub open spec fn dedup(s: Seq<Seq<char>>) -> Seq<Seq<char>>
    decreases s.len(),
{
    if s.len() == 0 {
        s
    } else {
        let d = dedup(s.drop_last());
        if d.contains(s.last()) {
            d
        } else {
            d.push(s.last())
        }
    }
}

/// The entities that a redaction option names.
pub open spec fn redact_entities_of(value: Seq<char>) -> Seq<Seq<char>> {
    dedup(redact_candidates(split_on(value, ',')))
}

fn contains_string(v: &Vec<String>, s: &String) -> (r: bool)
    ensures
        r == views(v@).contains(s@),
{
    let mut i: usize = 0;
    while i < v.len()
        invariant
            i <= v@.len(),
            forall|j: int| 0 <= j < i ==> v@[j]@ != s@,
        decreases v@.len() - i,
    {
        if v[i] == *s {
            assert(views(v@)[i as int] == s@);
            return true;
        }
        i = i + 1;
    }
    assert(!views(v@).contains(s@)) by {
        assert forall|j: int| 0 <= j < views(v@).len() implies views(v@)[j] != s@ by {
            assert(views(v@)[j] == v@[j]@);
        }
    }
    false
}

/// Splits a redaction option at commas, trims and lowercases each item, drops
/// empty ones and repeats, and keeps the first-seen order.
pub fn parse_redact_entities(redact_value: &str) -> (r: Vec<String>)
    ensures
        views(r@) == redact_entities_of(redact_value@),
{
    let parts = split_char(redact_value, ',');
    let mut out: Vec<String> = Vec::new();
    let mut i: usize = 0;
    assert(views(parts@).subrange(0, 0) =~= Seq::<Seq<char>>::empty());
    assert(views(out@) =~= Seq::<Seq<char>>::empty());
    while i < parts.len()
        invariant
            i <= parts@.len(),
            views(parts@) == split_on(redact_value@, ','),
            views(out@) == dedup(redact_candidates(views(parts@).subrange(0, i as int))),
        decreases parts@.len() - i,
    {
        let ghost pre = views(parts@).subrange(0, i + 1);
        assert(pre.drop_last() =~= views(parts@).subrange(0, i as int));
        assert(pre.last() == parts@[i as int]@);
        let t = trim(parts[i].as_str());
        if t.unicode_len() != 0 {
            let lowered = to_lowercase(t);
            let ghost cands = redact_candidates(pre);
            assert(cands == redact_candidates(views(parts@).subrange(0, i as int)).push(lowered@));
            assert(cands.drop_last() =~= redact_candidates(views(parts@).subrange(0, i as int)));
            if !contains_string(&out, &lowered) {
                let ghost before = views(out@);
                out.push(lowered);
                assert(views(out@) =~= before.push(cands.last()));
            }
        }
        i = i + 1;
    }
    assert(views(parts@).subrange(0, parts@.len() as int) =~= views(parts@));
    out
}

/// The items of `s` with `sep` between each two.
pub open spec fn joined(s: Seq<Seq<char>>, sep: Seq<char>) -> Seq<char>
    decreases s.len(),
{
    if s.len() == 0 {
        Seq::empty()
    } else if s.len() == 1 {
        s[0]
    } else {
        joined(s.drop_last(), sep) + sep + s.last()
    }
}

/// Joins `parts` with `sep` between each two, as `[String]::join` does.
pub fn join(parts: &Vec<String>, sep: &str) -> (r: String)
    ensures
        r@ == joined(views(parts@), sep@),
{
    let mut out = String::new();
    let mut i: usize = 0;
    assert(views(parts@).subrange(0, 0) =~= Seq::<Seq<char>>::empty());
    while i < parts.len()
        invariant
            i <= parts@.len(),
            out@ == joined(views(parts@).subrange(0, i as int), sep@),
        decreases parts@.len() - i,
    {
        let ghost pre = views(parts@).subrange(0, i + 1);
        assert(pre.drop_last() =~= views(parts@).subrange(0, i as int));
        assert(pre.last() == parts@[i as int]@);
        if i > 0 {
            out.append(sep);
        } else {
            assert(out@ =~= Seq::<char>::empty());
        }
        out.append(parts[i].as_str());
        proof {
            if i == 0 {
                assert(out@ =~= pre[0]);
            }
        }
        i = i + 1;
    }
    assert(views(parts@).subrange(0, parts@.len() as int) =~= views(parts@));
    out
}

/// The query parameter for a redaction option: `redact=<e1>&redact=<e2>...`,
/// or `None` when the option names no entity.
pub fn redact_query(redact_value: &str) -> (r: Option<String>)
    ensures
        redact_entities_of(redact_value@).len() == 0 ==> r is None,
        redact_entities_of(redact_value@).len() > 0 ==> (r matches Some(q) && q@ == "redact="@
            + joined(redact_entities_of(redact_value@), "&redact="@)),
{
    let entities = parse_redact_entities(redact_value);
    if entities.len() == 0 {
        None
    } else {
        Some(String::from_str("redact=").concat(join(&entities, "&redact=").as_str()))
    }
}

} // verus!
