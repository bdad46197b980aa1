//! The directory-only listing used by the move picker: a parent-marker entry
//! followed by the subdirectories of a path, with one name optionally
//! excluded so a directory cannot be moved into itself. The caller
//! enumerates the entries and looks up which are directories; the selection
//! rule itself lives here.

use vstd::prelude::*;

verus! {

/// An entry belongs in the directory-only listing when it is a directory
/// and is not the excluded name.
pub open spec fn keeps_entry(name: Seq<char>, is_dir: bool, exclude: Option<Seq<char>>) -> bool {
    is_dir && match exclude {
        Some(e) => name != e,
        None => true,
    }
}

/// The names among `entries` that the directory-only listing keeps, in
/// order, where `flags[i]` says whether `entries[i]` is a directory.
pub open spec fn kept_entries(
    entries: Seq<Seq<char>>,
    flags: Seq<bool>,
    exclude: Option<Seq<char>>,
) -> Seq<Seq<char>>
    decreases entries.len(),
{
    if entries.len() == 0 {
        Seq::<Seq<char>>::empty()
    } else {
        let rest = kept_entries(entries.drop_last(), flags.drop_last(), exclude);
        if entries.len() <= flags.len() && keeps_entry(entries.last(), flags.last(), exclude) {
            rest.push(entries.last())
        } else {
            rest
        }
    }
}

/// Builds the directory-only listing: a leading `..` parent marker, then
/// every entry that is a directory and differs from `exclude`, in the order
/// given. `is_dir[i]` is the caller's metadata answer for `entries[i]`, with
/// a failed lookup reported as `false` so the entry is not offered.
pub fn get_directories_only(entries: &Vec<String>, is_dir: &Vec<bool>, exclude: &Option<String>) -> (r:
    Vec<String>)
    requires
        entries.len() == is_dir.len(),
    ensures
        r.deep_view() == seq![".."@] + kept_entries(
            entries.deep_view(),
            is_dir@,
            exclude.deep_view(),
        ),
{
    let mut r: Vec<String> = Vec::new();
    r.push(String::from_str(".."));
    proof {
        lemma_views_of(&r);
        assert(views_of(r@) =~= seq![".."@] + kept_entries(
            entries.deep_view().take(0),
            is_dir@.take(0),
            exclude.deep_view(),
        ));
    }
    let mut i: usize = 0;
    while i < entries.len()
        invariant
            entries.len() == is_dir.len(),
            i <= entries.len(),
            views_of(r@) == seq![".."@] + kept_entries(
                entries.deep_view().take(i as int),
                is_dir@.take(i as int),
                exclude.deep_view(),
            ),
        decreases entries.len() - i,
    {
        let keep = is_dir[i] && match exclude {
            Some(e) => !string_eq(&entries[i], e),
            None => true,
        };
        let ghost rs = r@;
        if keep {
            r.push(entries[i].clone());
        }
        proof {
            let ghost ep = entries.deep_view().take(i + 1 as int);
            let ghost fp = is_dir@.take(i + 1 as int);
            assert(ep.drop_last() =~= entries.deep_view().take(i as int));
            assert(fp.drop_last() =~= is_dir@.take(i as int));
            assert(ep.last() == entries.deep_view()[i as int]);
            assert(ep.last() == entries@[i as int]@);
            assert(fp.last() == is_dir@[i as int]);
            if let Some(e) = exclude {
                assert(exclude.deep_view() == Some(e@));
            } else {
                assert(exclude.deep_view() is None);
            }
            assert(keep == keeps_entry(ep.last(), fp.last(), exclude.deep_view()));
            if keep {
                lemma_views_of_push(rs, entries@[i as int]);
                assert(views_of(r@) =~= seq![".."@] + kept_entries(ep, fp, exclude.deep_view()));
            } else {
                assert(views_of(r@) =~= seq![".."@] + kept_entries(ep, fp, exclude.deep_view()));
            }
        }
        i = i + 1;
    }
    proof {
        assert(entries.deep_view().take(entries.len() as int) =~= entries.deep_view());
        assert(is_dir@.take(is_dir.len() as int) =~= is_dir@);
        lemma_views_of(&r);
    }
    r
}

/// The characters of each string in a sequence of strings.
pub open spec fn views_of(s: Seq<String>) -> Seq<Seq<char>> {
    Seq::new(s.len(), |i: int| s[i]@)
}

/// A vector's deep view is the characters of each of its strings.
proof fn lemma_views_of(v: &Vec<String>)
    ensures
        v.deep_view() == views_of(v@),
{
    assert(v.deep_view() =~= views_of(v@));
}

/// Appending a string appends its characters to the sequence of views.
proof fn lemma_views_of_push(s: Seq<String>, x: String)
    ensures
        views_of(s.push(x)) == views_of(s).push(x@),
{
    assert(views_of(s.push(x)) =~= views_of(s).push(x@));
}

/// Whether two strings hold the same characters.
fn string_eq(a: &String, b: &String) -> (r: bool)
    ensures
        r == (a@ == b@),
{
    a.eq(b)
}

} // verus!
