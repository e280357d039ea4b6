//! Where each file that a job leaves behind goes: the stage's primary result
//! into its result directory (or left in place), every other file into an
//! archive directory.
use crate::layout::{is_component, Layout, CONCORD_TREE_EXT, TREE_EXT};
use crate::paths::{
    extension, extension_of, file_name, file_name_of, join, joined, lemma_rfind_bounds, rfind,
};
use vstd::prelude::*;

verus! {

/// The placement rule of one stage for one job.
pub struct Collector {
    /// The extension of the stage's primary result file.
    pub primary_ext: String,
    /// Where the primary result goes; `None` leaves it where the job wrote it.
    pub primary_dir: Option<String>,
    /// Where every other file goes.
    pub archive_dir: String,
}

/// The names that a job's files match: `<prefix>.*`.
pub open spec fn result_pattern(prefix: Seq<char>) -> Seq<char> {
    prefix + ".*"@
}

impl Collector {
    /// Where `file` goes, or `None` where it stays.
    pub open spec fn destination(&self, file: Seq<char>) -> Option<Seq<char>> {
        let name = file_name(file);
        if extension(name) == Some(self.primary_ext@) {
            match self.primary_dir {
                Some(d) => Some(join(d@, name)),
                None => None,
            }
        } else {
            Some(join(self.archive_dir@, name))
        }
    }

    /// Where the file at `file` goes, or `None` where it stays.
    pub fn destination_of(&self, file: &str) -> (r: Option<String>)
        ensures
            match r {
                Some(d) => self.destination(file@) == Some(d@),
                None => self.destination(file@) is None,
            },
    {
        let name = file_name_of(file);
        let is_primary = match extension_of(name) {
            Some(e) => String::from_str(e) == self.primary_ext,
            None => false,
        };
        if is_primary {
            match &self.primary_dir {
                Some(d) => Some(joined(d.as_str(), name)),
                None => None,
            }
        } else {
            Some(joined(self.archive_dir.as_str(), name))
        }
    }

    /// The destination of each of `files`, in order.
    pub fn plan(&self, files: &Vec<String>) -> (r: Vec<Option<String>>)
        ensures
            r@.len() == files@.len(),
            forall|i: int|
                0 <= i < files@.len() ==> #[trigger] opt_views(r@[i]) == self.destination(
                    files@[i]@,
                ),
    {
        let mut r: Vec<Option<String>> = Vec::new();
        let mut i: usize = 0;
        while i < files.len()
            invariant
                i <= files@.len(),
                r@.len() == i,
                forall|k: int|
                    0 <= k < i ==> #[trigger] opt_views(r@[k]) == self.destination(files@[k]@),
            decreases files@.len() - i,
        {
            let d = self.destination_of(files[i].as_str());
            r.push(d);
            i = i + 1;
        }
        r
    }
}

/// The view of an optional string.
pub open spec fn opt_views(o: Option<String>) -> Option<Seq<char>> {
    match o {
        Some(s) => Some(s@),
        None => None,
    }
}

/// The gene stage's rule for the job named `prefix`: its tree file into the
/// gene tree directory, the rest into `<archive>/<prefix>`.
pub open spec fn gene_rule(layout: Layout, prefix: Seq<char>, c: Collector) -> bool {
    &&& c.primary_ext@ == TREE_EXT@
    &&& c.primary_dir matches Some(d) && d@ == layout.gene_tree_dir@
    &&& c.archive_dir@ == join(layout.gene_archive_dir@, prefix)
}

/// The collector of the gene job named `prefix`.
pub fn gene_collector(layout: &Layout, prefix: &str) -> (r: Collector)
    ensures
        gene_rule(*layout, prefix@, r),
{
    Collector {
        primary_ext: String::from_str(TREE_EXT),
        primary_dir: Some(layout.gene_tree_dir.clone()),
        archive_dir: joined(layout.gene_archive_dir.as_str(), prefix),
    }
}

/// The collector of the species tree job: its tree file stays for the
/// concordance stage, the rest goes to the species tree directory.
pub fn species_collector(layout: &Layout) -> (r: Collector)
    ensures
        r.primary_ext@ == TREE_EXT@,
        r.primary_dir is None,
        r.archive_dir@ == layout.species_dir@,
{
    Collector {
        primary_ext: String::from_str(TREE_EXT),
        primary_dir: None,
        archive_dir: layout.species_dir.clone(),
    }
}

/// The collector of the concordance factor job: its annotated tree stays, the
/// rest goes to the concordance factor directory.
pub fn concordance_collector(layout: &Layout) -> (r: Collector)
    ensures
        r.primary_ext@ == CONCORD_TREE_EXT@,
        r.primary_dir is None,
        r.archive_dir@ == layout.concord_dir@,
{
    Collector {
        primary_ext: String::from_str(CONCORD_TREE_EXT),
        primary_dir: None,
        archive_dir: layout.concord_dir.clone(),
    }
}

/// The pattern that finds the files of the job named `prefix`.
pub fn result_pattern_of(prefix: &str) -> (r: String)
    ensures
        r@ == result_pattern(prefix@),
{
    let mut r = String::from_str(prefix);
    r.append(".*");
    r
}

/// A name without a separator is its own last component.
pub proof fn lemma_plain_name(f: Seq<char>)
    requires
        !f.contains('/'),
    ensures
        file_name(f) == f,
{
    lemma_rfind_bounds(f, '/');
    if rfind(f, '/') >= 0 {
        assert(f.contains('/'));
    }
    assert(f.subrange(0, f.len() as int) =~= f);
}

/// Joining with a first part that holds no separator can be undone.
pub proof fn lemma_join_injective(a1: Seq<char>, b1: Seq<char>, a2: Seq<char>, b2: Seq<char>)
    requires
        !a1.contains('/'),
        !a2.contains('/'),
        join(a1, b1) == join(a2, b2),
    ensures
        a1 == a2,
        b1 == b2,
{
    let j1 = join(a1, b1);
    let j2 = join(a2, b2);
    if a1.len() < a2.len() {
        assert(j1[a1.len() as int] == '/');
        assert(j2[a1.len() as int] == a2[a1.len() as int]);
        assert(a2.contains(a2[a1.len() as int]));
    } else if a2.len() < a1.len() {
        assert(j2[a2.len() as int] == '/');
        assert(j1[a2.len() as int] == a1[a2.len() as int]);
        assert(a1.contains(a1[a2.len() as int]));
    } else {
        assert(a1 =~= j1.subrange(0, a1.len() as int));
        assert(a2 =~= j2.subrange(0, a2.len() as int));
        assert(b1 =~= j1.subrange(a1.len() as int + 1, j1.len() as int));
        assert(b2 =~= j2.subrange(a2.len() as int + 1, j2.len() as int));
    }
}

/// The last dot of `<p>.<e>` is the one before `e` when `e` holds no dot.
pub proof fn lemma_rfind_suffix(p: Seq<char>, e: Seq<char>)
    requires
        !e.contains('.'),
    ensures
        rfind(p + seq!['.'] + e, '.') == p.len(),
    decreases e.len(),
{
    let s = p + seq!['.'] + e;
    if e.len() == 0 {
        assert(s.last() == '.');
    } else {
        assert(s.last() == e.last());
        assert(e.contains(e.last()));
        assert(s.drop_last() =~= p + seq!['.'] + e.drop_last());
        assert forall|c: char| e.drop_last().contains(c) implies e.contains(c) by {
            let k = choose|k: int| 0 <= k < e.drop_last().len() && e.drop_last()[k] == c;
            assert(e[k] == c);
        }
        lemma_rfind_suffix(p, e.drop_last());
    }
}

/// Placement of a gene job's files: for a file `<prefix>.<ext>`, the tree file
/// goes to `<gene tree dir>/<prefix>.treefile` and every other file to
/// `<archive>/<prefix>/<prefix>.<ext>`.
pub proof fn lemma_gene_placement(layout: Layout, prefix: Seq<char>, ext: Seq<char>, c: Collector)
    requires
        gene_rule(layout, prefix, c),
        prefix.len() > 0,
        !prefix.contains('/'),
        !ext.contains('/'),
        !ext.contains('.'),
    ensures
        ({
            let name = prefix + seq!['.'] + ext;
            &&& ext == TREE_EXT@ ==> c.destination(name) == Some(join(layout.gene_tree_dir@, name))
            &&& ext != TREE_EXT@ ==> c.destination(name) == Some(
                join(join(layout.gene_archive_dir@, prefix), name),
            )
        }),
{
    let name = prefix + seq!['.'] + ext;
    lemma_rfind_suffix(prefix, ext);
    assert(!name.contains('/')) by {
        if name.contains('/') {
            let k = choose|k: int| 0 <= k < name.len() && name[k] == '/';
            if k < prefix.len() {
                assert(prefix[k] == '/');
                assert(prefix.contains('/'));
            } else if k > prefix.len() {
                assert(ext[k - prefix.len() - 1] == '/');
                assert(ext.contains('/'));
            }
        }
    }
    lemma_plain_name(name);
    assert(name.subrange(prefix.len() as int + 1, name.len() as int) =~= ext);
}

/// Two distinct files that gene jobs leave behind never go to one place, for
/// any two job prefixes: no two jobs' outputs overlap after collection.
pub proof fn lemma_gene_destinations_distinct(
    layout: Layout,
    prefix_a: Seq<char>,
    rule_a: Collector,
    file_a: Seq<char>,
    prefix_b: Seq<char>,
    rule_b: Collector,
    file_b: Seq<char>,
)
    requires
        layout.wf(),
        gene_rule(layout, prefix_a, rule_a),
        gene_rule(layout, prefix_b, rule_b),
        is_component(prefix_a),
        is_component(prefix_b),
        is_component(file_a),
        is_component(file_b),
        file_a != file_b,
        rule_a.destination(file_a) is Some,
        rule_b.destination(file_b) is Some,
    ensures
        rule_a.destination(file_a) != rule_b.destination(file_b),
{
    lemma_plain_name(file_a);
    lemma_plain_name(file_b);
    let t = layout.gene_tree_dir@;
    let a = layout.gene_archive_dir@;
    assert(join(join(a, prefix_a), file_a) =~= join(a, join(prefix_a, file_a)));
    assert(join(join(a, prefix_b), file_b) =~= join(a, join(prefix_b, file_b)));
    if rule_a.destination(file_a) == rule_b.destination(file_b) {
        let prim1 = extension(file_a) == Some(TREE_EXT@);
        let prim2 = extension(file_b) == Some(TREE_EXT@);
        if prim1 && prim2 {
            lemma_join_injective(t, file_a, t, file_b);
        } else if !prim1 && !prim2 {
            lemma_join_injective(a, join(prefix_a, file_a), a, join(prefix_b, file_b));
            lemma_join_injective(prefix_a, file_a, prefix_b, file_b);
        } else if prim1 {
            lemma_join_injective(t, file_a, a, join(prefix_b, file_b));
        } else {
            lemma_join_injective(a, join(prefix_a, file_a), t, file_b);
        }
    }
}

} // verus!
