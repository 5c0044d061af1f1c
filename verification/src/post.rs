//! Post descriptors and the post downloader's decisions: which files of
//! a post are fetched, and under which destination names. Fetching and
//! writing happen elsewhere; everything decided here is a pure function
//! of the descriptors and the filter configuration.

use vstd::prelude::*;
use crate::filter::FilterSpec;
use crate::filter::spec_admits;
use crate::filter::views_of;
use crate::text::spec_dec;
use crate::text::dec_string;
use crate::text::lemma_dec_injective;
use crate::text::lemma_dec_len;

verus! {

/// One post of the paginated catalogue, as the listing returns it.
#[derive(Debug, PartialEq)]
pub struct Post {
    pub id: String,
    pub user: String,
    pub service: String,
    pub title: String,
    pub substring: String,
    pub published: String,
}

impl Default for Post {
    /// An empty descriptor: every field the empty string.
    fn default() -> (r: Post)
        ensures
            r.id@ == Seq::<char>::empty(),
            r.user@ == Seq::<char>::empty(),
            r.service@ == Seq::<char>::empty(),
            r.title@ == Seq::<char>::empty(),
            r.substring@ == Seq::<char>::empty(),
            r.published@ == Seq::<char>::empty(),
    {
        Post {
            id: String::new(),
            user: String::new(),
            service: String::new(),
            title: String::new(),
            substring: String::new(),
            published: String::new(),
        }
    }
}

/// One downloadable file of a post.
#[derive(Debug, PartialEq)]
pub struct FileDescriptor {
    /// Where the bytes live.
    pub url: String,
    /// The name the post suggests for the file.
    pub name: String,
    /// The size the post record promises, when it promises one.
    pub expected_size: Option<u64>,
}

/// A field-for-field copy of a file descriptor.
pub fn copy_file_descriptor(f: &FileDescriptor) -> (r: FileDescriptor)
    ensures
        r == *f,
{
    FileDescriptor { url: f.url.clone(), name: f.name.clone(), expected_size: f.expected_size }
}

/// Whether a file descriptor passes the file-name filter.
pub open spec fn spec_file_admitted(f: FileDescriptor, filter: FilterSpec) -> bool {
    spec_admits(
        views_of(filter.whitelist_filename_regex@),
        views_of(filter.blacklist_filename_regex@),
        f.name@,
    )
}

/// The file-name predicate of a filter, as a function on descriptors.
pub open spec fn spec_file_pred(filter: FilterSpec) -> spec_fn(FileDescriptor) -> bool {
    |f: FileDescriptor| spec_file_admitted(f, filter)
}

/// Keep, in order, exactly the files of the post whose names the
/// file-name filter admits. This is the only filter applied in
/// single-post mode; in batch mode the title and date checks have
/// already run on the whole post.
pub fn admitted_files(files: &Vec<FileDescriptor>, filter: &FilterSpec) -> (r: Vec<
    FileDescriptor,
>)
    ensures
        r@ == files@.filter(spec_file_pred(*filter)),
{
    let mut r: Vec<FileDescriptor> = Vec::new();
    let mut i: usize = 0;
    proof {
        reveal(Seq::filter);
        assert(files@.take(0).filter(spec_file_pred(*filter)) =~= Seq::<
            FileDescriptor,
        >::empty());
    }
    while i < files.len()
        invariant
            i <= files@.len(),
            r@ == files@.take(i as int).filter(spec_file_pred(*filter)),
        decreases files@.len() - i,
    {
        let admitted = filter.filename_admits(files[i].name.as_str());
        proof {
            reveal(Seq::filter);
            assert(files@.take(i + 1).drop_last() =~= files@.take(i as int));
            assert(files@.take(i + 1).last() == files@[i as int]);
            assert(spec_file_pred(*filter)(files@[i as int]) == admitted);
        }
        if admitted {
            r.push(copy_file_descriptor(&files[i]));
        }
        i = i + 1;
    }
    proof {
        assert(files@.take(files@.len() as int) =~= files@);
    }
    r
}

/// The `k`-th destination-name candidate for a suggested name: the name
/// itself first, then the name with `_k` appended.
pub open spec fn spec_candidate(base: Seq<char>, k: nat) -> Seq<char> {
    if k == 0 {
        base
    } else {
        base + seq!['_'] + spec_dec(k)
    }
}

/// Whether `name` is one of the candidates derived from the suggested
/// name `base`: the name itself, or the name with an index appended.
pub open spec fn derives_from(name: String, base: Seq<char>) -> bool {
    exists|k: nat| name@ == #[trigger] spec_candidate(base, k)
}

/// Whether `name` is already taken by one of `used`.
pub open spec fn spec_taken(used: Seq<String>, name: Seq<char>) -> bool {
    exists|i: int| 0 <= i < used.len() && used[i]@ == name
}

/// Whether `name` is the first candidate for `base` that `used` has not
/// taken: every earlier candidate is taken, and `name` is not.
pub open spec fn spec_first_free(used: Seq<String>, base: Seq<char>, name: Seq<char>) -> bool {
    exists|k: nat|
        {
            &&& name == #[trigger] spec_candidate(base, k)
            &&& !spec_taken(used, spec_candidate(base, k))
            &&& forall|j: nat| j < k ==> spec_taken(used, #[trigger] spec_candidate(base, j))
        }
}

/// Two different candidate indices give two different names.
proof fn lemma_candidates_distinct(base: Seq<char>, j: nat, k: nat)
    requires
        j != k,
    ensures
        spec_candidate(base, j) != spec_candidate(base, k),
{
    if j == 0 {
        lemma_dec_len(k);
        assert(spec_candidate(base, k).len() == base.len() + 1 + spec_dec(k).len());
    } else if k == 0 {
        lemma_dec_len(j);
        assert(spec_candidate(base, j).len() == base.len() + 1 + spec_dec(j).len());
    } else {
        if spec_candidate(base, j) == spec_candidate(base, k) {
            let cj = spec_candidate(base, j);
            let ck = spec_candidate(base, k);
            assert(spec_dec(j) =~= cj.subrange(base.len() as int + 1, cj.len() as int));
            assert(spec_dec(k) =~= ck.subrange(base.len() as int + 1, ck.len() as int));
            lemma_dec_injective(j, k);
            assert(false);
        }
    }
}

/// There are only `used.len()` names to collide with, and `used.len() + 1`
/// pairwise distinct candidates, so some candidate is always free.
proof fn lemma_some_candidate_free(base: Seq<char>, used: Seq<String>)
    ensures
        exists|k: nat| k <= used.len() && !spec_taken(used, #[trigger] spec_candidate(base, k)),
{
    if forall|k: nat| k <= used.len() ==> spec_taken(used, #[trigger] spec_candidate(base, k)) {
        lemma_no_free_candidate_contradiction(base, used);
    }
}

/// The pigeonhole step: if every candidate were taken, `used.len() + 1`
/// distinct names would map injectively into `used.len()` slots.
proof fn lemma_no_free_candidate_contradiction(base: Seq<char>, used: Seq<String>)
    requires
        forall|k: nat| k <= used.len() ==> spec_taken(used, #[trigger] spec_candidate(base, k)),
    ensures
        !(forall|k: nat| k <= used.len() ==> spec_taken(
            used,
            #[trigger] spec_candidate(base, k),
        )),
{
    let n = used.len() as int;
    let slot = |j: int|
        choose|i: int| 0 <= i < n && used[i]@ == spec_candidate(base, j as nat);
    let dom = vstd::set_lib::set_int_range(0, n + 1);
    vstd::set_lib::lemma_int_range(0, n + 1);
    assert forall|j: int| dom.contains(j) implies 0 <= slot(j) < n && used[slot(j)]@
        == spec_candidate(base, j as nat) by {
        assert(spec_taken(used, spec_candidate(base, j as nat)));
    }
    assert(vstd::relations::injective_on(slot, dom)) by {
        assert forall|j1: int, j2: int|
            dom.contains(j1) && dom.contains(j2) && #[trigger] slot(j1) == #[trigger] slot(
                j2,
            ) implies j1 == j2 by {
            if j1 != j2 {
                lemma_candidates_distinct(base, j1 as nat, j2 as nat);
                assert(used[slot(j1)]@ == spec_candidate(base, j1 as nat));
                assert(used[slot(j2)]@ == spec_candidate(base, j2 as nat));
            }
        }
    }
    let img = dom.map(slot);
    vstd::set_lib::lemma_map_size(dom, img, slot);
    vstd::set_lib::lemma_int_range(0, n);
    assert(img.subset_of(vstd::set_lib::set_int_range(0, n))) by {
        assert forall|x: int| img.contains(x) implies vstd::set_lib::set_int_range(
            0,
            n,
        ).contains(x) by {
            let j = choose|j: int| dom.contains(j) && slot(j) == x;
        }
    }
    vstd::set_lib::lemma_len_subset(img, vstd::set_lib::set_int_range(0, n));
}

/// Whether `name` equals one of the names in `used`.
fn is_taken(used: &Vec<String>, name: &String) -> (r: bool)
    ensures
        r == spec_taken(used@, name@),
{
    let mut i: usize = 0;
    while i < used.len()
        invariant
            i <= used@.len(),
            forall|j: int| 0 <= j < i ==> used@[j]@ != name@,
        decreases used@.len() - i,
    {
        if used[i].eq(name) {
            return true;
        }
        i = i + 1;
    }
    false
}

/// Build the `k`-th candidate name.
fn candidate(base: &str, k: u64) -> (r: String)
    ensures
        r@ == spec_candidate(base@, k as nat),
{
    if k == 0 {
        base.to_owned()
    } else {
        let mut r = base.to_owned();
        r.append("_");
        proof {
            reveal_strlit("_");
            assert("_"@ =~= seq!['_']);
        }
        let suffix = dec_string(k);
        r.append(suffix.as_str());
        proof {
            assert(r@ =~= spec_candidate(base@, k as nat));
        }
        r
    }
}

/// Pick a destination name for a file whose suggested name is `base`,
/// avoiding every name in `used` (the names this post has already
/// assigned). The suggested name is kept when it is free; otherwise the
/// first free candidate `base_k` is taken — and among the `used.len() + 1`
/// candidates tried, one is always free.
pub fn unique_name(base: &str, used: &Vec<String>) -> (r: String)
    requires
        used@.len() < usize::MAX,
    ensures
        !spec_taken(used@, r@),
        derives_from(r, base@),
        spec_first_free(used@, base@, r@),
        !spec_taken(used@, base@) ==> r@ == base@,
{
    let mut k: usize = 0;
    while k <= used.len()
        invariant
            forall|j: nat| j < k ==> spec_taken(used@, #[trigger] spec_candidate(base@, j)),
            k <= used@.len() + 1,
            used@.len() < usize::MAX,
        decreases used@.len() + 1 - k,
    {
        let c = candidate(base, k as u64);
        if !is_taken(used, &c) {
            proof {
                assert(c@ == spec_candidate(base@, k as nat));
                if k > 0 {
                    assert(spec_taken(used@, spec_candidate(base@, 0)));
                }
            }
            return c;
        }
        k = k + 1;
    }
    // not reached: the loop tried used.len() + 1 pairwise distinct
    // candidates, and only used.len() names can be taken
    proof {
        lemma_some_candidate_free(base@, used@);
        assert(false);
    }
    candidate(base, 0)
}

/// Choose a destination name for every file of a post, in order. Each
/// file keeps its suggested name when that name is still free; a file
/// whose suggested name is already assigned within the post gets the
/// first free `name_k` candidate. The assigned names are pairwise
/// distinct, so two different files never share a destination path.
pub fn assign_dest_names(files: &Vec<FileDescriptor>) -> (names: Vec<String>)
    ensures
        names@.len() == files@.len(),
        forall|i: int, j: int| 0 <= i < j < names@.len() ==> names@[i]@ != names@[j]@,
        forall|i: int| 0 <= i < names@.len()
            ==> derives_from(#[trigger] names@[i], files@[i].name@),
        forall|i: int| 0 <= i < names@.len()
            ==> (!spec_taken(names@.take(i), files@[i].name@) ==> names@[i]@
                == files@[i].name@),
{
    let mut names: Vec<String> = Vec::new();
    let mut i: usize = 0;
    while i < files.len()
        invariant
            i <= files@.len(),
            names@.len() == i,
            forall|a: int, b: int| 0 <= a < b < i ==> names@[a]@ != names@[b]@,
            forall|a: int| 0 <= a < i ==> derives_from(#[trigger] names@[a], files@[a].name@),
            forall|a: int| 0 <= a < i
                ==> (!spec_taken(names@.take(a), files@[a].name@) ==> names@[a]@
                    == files@[a].name@),
        decreases files@.len() - i,
    {
        let nm = unique_name(files[i].name.as_str(), &names);
        proof {
            assert(names@.take(i as int) =~= names@);
        }
        let ghost prev = names@;
        names.push(nm);
        proof {
            assert(names@.take(i as int) =~= prev);
            assert forall|a: int| 0 <= a <= i implies names@.take(a) =~= prev.take(a) by {
                assert(names@.take(a) =~= prev.take(a));
            }
            assert forall|a: int| 0 <= a < i + 1 implies derives_from(
                #[trigger] names@[a],
                files@[a].name@,
            ) by {
                if a < i {
                    assert(names@[a] == prev[a]);
                } else {
                    assert(names@[a] == nm);
                }
            }
        }
        i = i + 1;
    }
    names
}

} // verus!
