use vstd::prelude::*;
use vstd::string::StrSliceExecFns;
use vstd::string::StringExecFns;

verus! {

/// The run of characters of `p` after its last separator; empty when `p`
/// is empty or ends in a separator.
pub open spec fn tail_of(p: Seq<char>) -> Seq<char>
    decreases p.len(),
{
    if p.len() == 0 {
        Seq::<char>::empty()
    } else if p.last() == '/' {
        Seq::<char>::empty()
    } else {
        tail_of(p.drop_last()).push(p.last())
    }
}

/// The file-name component of a path: the run after the last separator,
/// unless that run is empty or names the current or the parent directory.
pub open spec fn file_name_of(p: Seq<char>) -> Option<Seq<char>> {
    let t = tail_of(p);
    if t.len() == 0 || t == "."@ || t == ".."@ {
        Option::None
    } else {
        Option::Some(t)
    }
}

proof fn lemma_tail_subrange(p: Seq<char>, j: int)
    requires
        0 <= j <= p.len(),
        forall|k: int| j <= k < p.len() ==> p[k] != '/',
        j > 0 ==> p[j - 1] == '/',
    ensures
        tail_of(p) == p.subrange(j, p.len() as int),
    decreases p.len(),
{
    if j == p.len() {
        assert(p.subrange(j, p.len() as int) =~= Seq::<char>::empty());
        if p.len() > 0 {
            assert(p.last() == '/');
        }
    } else {
        assert(p.last() != '/');
        lemma_tail_subrange(p.drop_last(), j);
        assert(p.subrange(j, p.len() as int) =~= p.drop_last().subrange(
            j,
            p.len() - 1,
        ).push(p.last()));
    }
}

proof fn lemma_tail_no_sep(p: Seq<char>)
    ensures
        forall|k: int| 0 <= k < tail_of(p).len() ==> #[trigger] tail_of(p)[k] != '/',
    decreases p.len(),
{
    if p.len() == 0 || p.last() == '/' {
    } else {
        lemma_tail_no_sep(p.drop_last());
        assert forall|k: int| 0 <= k < tail_of(p).len() implies #[trigger] tail_of(p)[k]
            != '/' by {
            if k < tail_of(p.drop_last()).len() {
                assert(tail_of(p)[k] == tail_of(p.drop_last())[k]);
            } else {
                assert(tail_of(p)[k] == p.last());
            }
        }
    }
}

/// Computes `file_name_of(p@)`.
pub fn file_name(p: &String) -> (r: Option<String>)
    ensures
        r is Some <==> file_name_of(p@) is Some,
        r matches Some(n) ==> file_name_of(p@) == Option::Some(n@),
{
    let s = p.as_str();
    let len = s.unicode_len();
    let mut j: usize = len;
    while j > 0 && s.get_char(j - 1) != '/'
        invariant
            0 <= j <= len,
            len == p@.len(),
            s@ == p@,
            forall|k: int| j <= k < len ==> p@[k] != '/',
        decreases j,
    {
        j -= 1;
    }
    let tail = s.substring_char(j, len).to_owned();
    proof {
        lemma_tail_subrange(p@, j as int);
    }
    if tail.as_str().is_empty() || tail.eq(&".".to_owned()) || tail.eq(&"..".to_owned()) {
        Option::None
    } else {
        Option::Some(tail)
    }
}

/// One planned copy: an artifact and the destination file it goes to.
#[derive(Clone, Debug, PartialEq, Eq)]
pub struct CopyOp {
    pub src: String,
    pub dest: String,
}

/// Staging fails as a whole when any artifact path has no file-name
/// component.
#[derive(Clone, Copy, Debug, PartialEq, Eq)]
pub enum StageError {
    NoFileName,
}

/// Destination of an artifact named `name`: the file of that name inside
/// the distribution directory.
pub open spec fn dest_of(dist_dir: Seq<char>, name: Seq<char>) -> Seq<char> {
    dist_dir + "/"@ + name
}

/// Computes where each artifact goes before anything is copied: the whole
/// call fails, and nothing is to be staged, when some artifact path has no
/// file-name component; otherwise each artifact keeps its file name under
/// the distribution directory.
pub fn staging_plan(artifacts: &Vec<String>, dist_dir: &String) -> (r: Result<
    Vec<CopyOp>,
    StageError,
>)
    ensures
        r is Ok <==> (forall|i: int|
            0 <= i < artifacts@.len() ==> file_name_of(#[trigger] artifacts@[i]@) is Some),
        r matches Ok(plan) ==> plan@.len() == artifacts@.len() && (forall|i: int|
            0 <= i < artifacts@.len() ==> (#[trigger] plan@[i]).src@ == artifacts@[i]@
                && plan@[i].dest@ == dest_of(dist_dir@, file_name_of(artifacts@[i]@).unwrap())),
{
    let mut plan: Vec<CopyOp> = Vec::new();
    let mut i: usize = 0;
    while i < artifacts.len()
        invariant
            0 <= i <= artifacts@.len(),
            plan@.len() == i,
            forall|k: int|
                0 <= k < i ==> file_name_of(#[trigger] artifacts@[k]@) is Some,
            forall|k: int|
                0 <= k < i ==> (#[trigger] plan@[k]).src@ == artifacts@[k]@ && plan@[k].dest@
                    == dest_of(dist_dir@, file_name_of(artifacts@[k]@).unwrap()),
        decreases artifacts@.len() - i,
    {
        match file_name(&artifacts[i]) {
            Option::Some(name) => {
                let dest = dist_dir.clone().concat("/").concat(name.as_str());
                plan.push(CopyOp { src: artifacts[i].clone(), dest });
            },
            Option::None => {
                return Result::Err(StageError::NoFileName);
            },
        }
        i += 1;
    }
    Result::Ok(plan)
}

/// Staging preserves file names: the destination planned for an artifact
/// has exactly the artifact's own file-name component.
pub proof fn lemma_staging_preserves_file_name(src: Seq<char>, dist_dir: Seq<char>)
    requires
        file_name_of(src) is Some,
    ensures
        file_name_of(dest_of(dist_dir, file_name_of(src).unwrap())) == file_name_of(src),
{
    reveal_strlit("/");
    let name = file_name_of(src).unwrap();
    let d = dest_of(dist_dir, name);
    lemma_tail_no_sep(src);
    assert(d[dist_dir.len() as int] == '/');
    assert forall|k: int| dist_dir.len() + 1 <= k < d.len() implies d[k] != '/' by {
        assert(d[k] == name[k - dist_dir.len() - 1]);
    }
    lemma_tail_subrange(d, dist_dir.len() + 1 as int);
    assert(d.subrange(dist_dir.len() + 1 as int, d.len() as int) =~= name);
}

} // verus!
