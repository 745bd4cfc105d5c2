//! Discovery of projects from the entries directly inside the scan root:
//! directories are kept, each is detected, and the detected projects are
//! returned sorted by name, so the project list is deterministic whatever
//! order the filesystem yields entries in. A root that cannot be read at
//! all is a fatal scan failure.

use vstd::prelude::*;
use crate::ecosystem::Ecosystem;
use crate::ecosystem::detect_view;
use crate::ecosystem::file_views;
use crate::order::lemma_name_le_total;
use crate::order::lemma_name_le_trans;
use crate::order::name_le;
use crate::order::name_le_exec;
use crate::project::Project;
use crate::project::project_view;

verus! {

/// What the filesystem shows of one entry directly inside the scan root:
/// its basename, its path as text, whether it is a directory, and the file
/// names directly inside it.
pub struct RootEntry {
    pub name: String,
    pub root: String,
    pub is_dir: bool,
    pub files: Vec<String>,
}

/// Whether a root entry yields a project: it is a directory and holds a
/// recognized marker file.
pub open spec fn selected(e: RootEntry) -> bool {
    e.is_dir && detect_view(file_views(e.files@)) is Some
}

/// The project owed for a selected root entry.
pub open spec fn selected_view(e: RootEntry) -> (Seq<char>, Seq<char>, Ecosystem) {
    (e.name@, e.root@, detect_view(file_views(e.files@)).unwrap())
}

/// The projects owed for the root's entries, one per directory with a
/// recognized marker, in the order the entries were given.
pub open spec fn detected_views(es: Seq<RootEntry>) -> Seq<(Seq<char>, Seq<char>, Ecosystem)>
    decreases es.len(),
{
    if es.len() == 0 {
        Seq::empty()
    } else if selected(es.first()) {
        seq![selected_view(es.first())] + detected_views(es.drop_first())
    } else {
        detected_views(es.drop_first())
    }
}

/// A project is owed only for an entry of the scanned listing: whatever
/// `detected_views` yields names some selected entry of `es`. Since the
/// listing holds only the entries directly inside the root, nothing deeper
/// and never the root itself, the same goes for the discovered projects.
pub proof fn lemma_detected_from_entries(es: Seq<RootEntry>, v: (Seq<char>, Seq<char>, Ecosystem))
    requires
        detected_views(es).contains(v),
    ensures
        exists|i: int| 0 <= i < es.len() && selected(#[trigger] es[i]) && selected_view(es[i]) == v,
    decreases es.len(),
{
    if es.len() > 0 {
        let rest = detected_views(es.drop_first());
        if selected(es.first()) {
            let whole = seq![selected_view(es.first())] + rest;
            let j = choose|j: int| 0 <= j < whole.len() && whole[j] == v;
            if j == 0 {
                assert(selected(es[0]) && selected_view(es[0]) == v);
            } else {
                assert(rest[j - 1] == v);
                assert(rest.contains(v));
                lemma_detected_from_entries(es.drop_first(), v);
                let i = choose|i: int|
                    0 <= i < es.drop_first().len() && selected(#[trigger] es.drop_first()[i])
                        && selected_view(es.drop_first()[i]) == v;
                assert(es.drop_first()[i] == es[i + 1]);
                assert(selected(es[i + 1]) && selected_view(es[i + 1]) == v);
            }
        } else {
            lemma_detected_from_entries(es.drop_first(), v);
            let i = choose|i: int|
                0 <= i < es.drop_first().len() && selected(#[trigger] es.drop_first()[i])
                    && selected_view(es.drop_first()[i]) == v;
            assert(es.drop_first()[i] == es[i + 1]);
            assert(selected(es[i + 1]) && selected_view(es[i + 1]) == v);
        }
    }
}

/// The views of a sequence of projects.
pub open spec fn project_views(s: Seq<Project>) -> Seq<(Seq<char>, Seq<char>, Ecosystem)> {
    s.map_values(|p: Project| project_view(p))
}

/// Whether a sequence of projects is sorted by name.
pub open spec fn sorted_by_name(s: Seq<Project>) -> bool {
    forall|i: int, j: int| 0 <= i < j < s.len() ==> name_le(s[i].name@, s[j].name@)
}

/// Places `p` into the sorted vector `out`, keeping it sorted and adding
/// exactly `p` to its contents.
fn insert_sorted(out: &mut Vec<Project>, p: Project)
    requires
        sorted_by_name(old(out)@),
    ensures
        sorted_by_name(final(out)@),
        project_views(final(out)@).to_multiset() == project_views(old(out)@).to_multiset().insert(
            project_view(p),
        ),
{
    broadcast use vstd::seq_lib::group_to_multiset_ensures;

    let mut j: usize = 0;
    loop
        invariant
            sorted_by_name(out@),
            out@ == old(out)@,
            0 <= j <= out@.len(),
            forall|k: int| 0 <= k < j ==> name_le(out@[k].name@, p.name@),
        ensures
            out@ == old(out)@,
            0 <= j <= out@.len(),
            forall|k: int| 0 <= k < j ==> name_le(out@[k].name@, p.name@),
            j == out@.len() || !name_le(out@[j as int].name@, p.name@),
        decreases out@.len() - j,
    {
        if j == out.len() {
            break;
        }
        if !name_le_exec(out[j].name.as_str(), p.name.as_str()) {
            break;
        }
        j += 1;
    }
    proof {
        let s_old = old(out)@;
        if j < s_old.len() {
            lemma_name_le_total(s_old[j as int].name@, p.name@);
            assert(name_le(p.name@, s_old[j as int].name@));
        }
        assert forall|k: int| j <= k < s_old.len() implies name_le(
            p.name@,
            #[trigger] s_old[k].name@,
        ) by {
            if k > j {
                lemma_name_le_trans(p.name@, s_old[j as int].name@, s_old[k].name@);
            }
        }
    }
    out.insert(j, p);
    proof {
        let s_old = old(out)@;
        let s_new = out@;
        assert forall|i1: int, i2: int| 0 <= i1 < i2 < s_new.len() implies name_le(
            s_new[i1].name@,
            s_new[i2].name@,
        ) by {
            assert(s_new == s_old.insert(j as int, p));
            if i1 < j {
                assert(s_new[i1] == s_old[i1]);
            } else if i1 == j {
                assert(s_new[i1] == p);
            } else {
                assert(s_new[i1] == s_old[i1 - 1]);
            }
            if i2 < j {
                assert(s_new[i2] == s_old[i2]);
            } else if i2 == j {
                assert(s_new[i2] == p);
            } else {
                assert(s_new[i2] == s_old[i2 - 1]);
            }
        }
        assert(project_views(s_new) =~= project_views(s_old).insert(j as int, project_view(p)));
        assert(project_views(s_new).to_multiset() == project_views(s_old).to_multiset().insert(
            project_view(p),
        ));
    }
}

/// Discovers the projects among the root's entries: every directory whose
/// contents show a recognized marker becomes one project, nothing else
/// does, and the projects come back sorted by name.
pub fn discover(entries: Vec<RootEntry>) -> (r: Vec<Project>)
    ensures
        sorted_by_name(r@),
        project_views(r@).to_multiset() == detected_views(entries@).to_multiset(),
{
    broadcast use vstd::seq_lib::group_to_multiset_ensures;

    let ghost orig = entries@;
    let mut rest = entries;
    let mut out: Vec<Project> = Vec::new();
    proof {
        assert(rest@ =~= orig.take(rest@.len() as int));
        assert(orig.skip(rest@.len() as int) =~= Seq::<RootEntry>::empty());
    }
    loop
        invariant
            sorted_by_name(out@),
            rest@.len() <= orig.len(),
            rest@ == orig.take(rest@.len() as int),
            project_views(out@).to_multiset() == detected_views(
                orig.skip(rest@.len() as int),
            ).to_multiset(),
        ensures
            sorted_by_name(out@),
            rest@.len() == 0,
            project_views(out@).to_multiset() == detected_views(
                orig.skip(rest@.len() as int),
            ).to_multiset(),
        decreases rest@.len(),
    {
        let ghost m_old = rest@.len() as int;
        let popped = rest.pop();
        match popped {
            None => {
                break;
            },
            Some(e) => {
                proof {
                    assert(rest@ =~= orig.take(m_old - 1));
                    assert(e == orig[m_old - 1]);
                    let tail = orig.skip(m_old);
                    let whole = orig.skip(m_old - 1);
                    assert(whole.first() == orig[m_old - 1]);
                    assert(whole.drop_first() =~= tail);
                    if selected(e) {
                        assert(whole =~= tail.insert(0, e));
                        assert(detected_views(whole) =~= detected_views(tail).insert(
                            0,
                            selected_view(e),
                        ));
                    } else {
                        assert(detected_views(whole) =~= detected_views(tail));
                    }
                }
                if e.is_dir {
                    match Project::detect(e.name, e.root, &e.files) {
                        Some(p) => {
                            proof {
                                assert(project_view(p) == selected_view(orig[m_old - 1]));
                            }
                            insert_sorted(&mut out, p);
                            proof {
                                let tail = orig.skip(m_old);
                                let whole = orig.skip(m_old - 1);
                                let sv = selected_view(orig[m_old - 1]);
                                vstd::seq_lib::to_multiset_insert(detected_views(tail), 0, sv);
                                assert(detected_views(tail).insert(0, sv).to_multiset()
                                    == detected_views(tail).to_multiset().insert(sv));
                                assert(detected_views(whole).to_multiset() == detected_views(
                                    tail,
                                ).to_multiset().insert(sv));
                            }
                        },
                        None => {
                        },
                    }
                }
            },
        }
    }
    proof {
        assert(orig.skip(0) =~= orig);
    }
    out
}

/// An error that prevented the scan root's entries from being read at all.
#[derive(Debug)]
pub struct ScanError {
    pub message: String,
}

/// The whole scan step: a root whose entries could be read yields the
/// sorted list of detected projects; a root that could not be read at all
/// (`listing` is an error description) is fatal and yields a `ScanError`
/// carrying that description, before any project is considered.
pub fn plan_run(listing: Result<Vec<RootEntry>, String>) -> (r: Result<Vec<Project>, ScanError>)
    ensures
        match listing {
            Ok(entries) => r matches Ok(ps) && sorted_by_name(ps@) && project_views(
                ps@,
            ).to_multiset() == detected_views(entries@).to_multiset(),
            Err(m) => r matches Err(e) && e.message@ == m@,
        },
{
    match listing {
        Ok(entries) => Ok(discover(entries)),
        Err(message) => Err(ScanError { message }),
    }
}

} // verus!
