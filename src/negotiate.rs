//! Choosing a response format from an HTTP `Accept` header.

use vstd::prelude::*;
use crate::text::{lemma_split_on_nonempty, same_text, split_on};

verus! {

/// The response formats on offer.
#[derive(Clone, Copy, Debug, PartialEq, Eq, Structural, Hash)]
pub enum Accept {
    Html,
    Json,
}

/// The format a media type names, if it is one on offer.
pub open spec fn accept_of(media_type: Seq<char>) -> Option<Accept> {
    if media_type == "text/html"@ {
        Some(Accept::Html)
    } else if media_type == "application/json"@ {
        Some(Accept::Json)
    } else {
        None
    }
}

/// The format named by the first entry that names one on offer.
pub open spec fn first_accepted(entries: Seq<Seq<char>>) -> Option<Accept>
    decreases entries.len(),
{
    if entries.len() == 0 {
        None
    } else {
        match accept_of(entries[0]) {
            Some(a) => Some(a),
            None => first_accepted(entries.drop_first()),
        }
    }
}

proof fn lemma_first_accepted_push(entries: Seq<Seq<char>>, e: Seq<char>)
    ensures
        first_accepted(entries.push(e)) == match first_accepted(entries) {
            Some(a) => Some(a),
            None => accept_of(e),
        },
    decreases entries.len(),
{
    if entries.len() == 0 {
        assert(entries.push(e).drop_first() =~= Seq::<Seq<char>>::empty());
    } else {
        assert(entries.push(e).drop_first() =~= entries.drop_first().push(e));
        lemma_first_accepted_push(entries.drop_first(), e);
    }
}

impl Accept {
    /// The format a single media type names.
    pub fn from_str(media_type: &str) -> (r: Option<Accept>)
        ensures
            r == accept_of(media_type@),
    {
        if same_text(media_type, "text/html") {
            Some(Accept::Html)
        } else if same_text(media_type, "application/json") {
            Some(Accept::Json)
        } else {
            None
        }
    }

    /// The format an `Accept` header value asks for: the first of its
    /// comma-separated entries that names a format on offer.
    pub fn from_header(value: &str) -> (r: Option<Accept>)
        ensures
            r == first_accepted(split_on(value@, ',')),
    {
        let ghost all = value@;
        let mut entry = String::new();
        let mut found: Option<Accept> = None;
        for c in it: value.chars()
            invariant
                it.seq() == all,
                split_on(all.take(it.index() as int), ',').len() >= 1,
                entry@ == split_on(all.take(it.index() as int), ',').last(),
                found == first_accepted(split_on(all.take(it.index() as int), ',').drop_last()),
        {
            let ghost i = it.index() as int;
            let ghost before = split_on(all.take(i), ',');
            proof {
                assert(all.take(i + 1).drop_last() =~= all.take(i));
                assert(all.take(i + 1).last() == all[i]);
                lemma_split_on_nonempty(all.take(i + 1), ',');
            }
            if c == ',' {
                if found.is_none() {
                    found = Accept::from_str(entry.as_str());
                }
                proof {
                    assert(before.push(Seq::empty()).drop_last() =~= before);
                    assert(before =~= before.drop_last().push(before.last()));
                    lemma_first_accepted_push(before.drop_last(), before.last());
                }
                entry = String::new();
            } else {
                entry.push(c);
                proof {
                    let after = before.update(before.len() - 1, before.last().push(c));
                    assert(after.drop_last() =~= before.drop_last());
                }
            }
        }
        proof {
            assert(all.take(all.len() as int) =~= all);
            let entries = split_on(all, ',');
            assert(entries =~= entries.drop_last().push(entries.last()));
            lemma_first_accepted_push(entries.drop_last(), entries.last());
        }
        if found.is_none() {
            found = Accept::from_str(entry.as_str());
        }
        found
    }
}

} // verus!
