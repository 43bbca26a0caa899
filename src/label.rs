use vstd::prelude::*;
use vstd::string::*;

use crate::text::push_char;

verus! {

/// The label that ties a runtime container to the job it belongs to.
pub const JOB_LABEL_KEY: &'static str = "io.nanocl.job";

/// `key=value` as the runtime's label filter writes it.
pub open spec fn label_filter(key: Seq<char>, value: Seq<char>) -> Seq<char> {
    key.push('=') + value
}

/// The filter that selects every container of the job `name`.
pub fn job_label_filter(name: &str) -> (r: String)
    ensures
        r@ == label_filter(JOB_LABEL_KEY@, name@),
{
    let mut s = JOB_LABEL_KEY.to_owned();
    push_char(&mut s, '=');
    s.append(name);
    s
}

pub open spec fn label_view(l: (String, String)) -> (Seq<char>, Seq<char>) {
    (l.0@, l.1@)
}

pub open spec fn labels_view(s: Seq<(String, String)>) -> Seq<(Seq<char>, Seq<char>)> {
    s.map_values(|l: (String, String)| label_view(l))
}

/// `labels` with the label `k` set to `v`: entries under `k` take the new
/// value in place, and when there are none the label is added at the end.
pub open spec fn set_label(
    labels: Seq<(Seq<char>, Seq<char>)>,
    k: Seq<char>,
    v: Seq<char>,
) -> Seq<(Seq<char>, Seq<char>)> {
    if exists|i: int| 0 <= i < labels.len() && (#[trigger] labels[i]).0 == k {
        labels.map_values(
            |e: (Seq<char>, Seq<char>)|
                if e.0 == k {
                    (k, v)
                } else {
                    e
                },
        )
    } else {
        labels.push((k, v))
    }
}

/// The labels a container of the job `job_name` is created with: the ones
/// its specification gives, plus the job label.
pub fn with_job_label(labels: Option<Vec<(String, String)>>, job_name: &str) -> (r: Vec<
    (String, String),
>)
    ensures
        labels_view(r@) == set_label(
            match labels {
                Some(v) => labels_view(v@),
                None => Seq::empty(),
            },
            JOB_LABEL_KEY@,
            job_name@,
        ),
{
    let key = JOB_LABEL_KEY.to_owned();
    let given = match labels {
        Some(v) => v,
        None => Vec::new(),
    };
    let ghost base = labels_view(given@);
    let ghost mapped = base.map_values(
        |e: (Seq<char>, Seq<char>)|
            if e.0 == key@ {
                (key@, job_name@)
            } else {
                e
            },
    );
    let mut out: Vec<(String, String)> = Vec::new();
    let mut found = false;
    let mut i: usize = 0;
    while i < given.len()
        invariant
            i <= given@.len(),
            base == labels_view(given@),
            key@ == JOB_LABEL_KEY@,
            mapped == base.map_values(
                |e: (Seq<char>, Seq<char>)|
                    if e.0 == key@ {
                        (key@, job_name@)
                    } else {
                        e
                    },
            ),
            labels_view(out@) =~= mapped.subrange(0, i as int),
            found <==> exists|j: int| 0 <= j < i && (#[trigger] base[j]).0 == key@,
        decreases given@.len() - i,
    {
        let ghost before = out@;
        let (k, v) = &given[i];
        assert(base[i as int] == label_view(given@[i as int]));
        let entry = if *k == key {
            found = true;
            (key.clone(), job_name.to_owned())
        } else {
            (k.clone(), v.clone())
        };
        assert(label_view(entry) == mapped[i as int]);
        out.push(entry);
        assert(labels_view(out@) =~= labels_view(before).push(label_view(entry)));
        i = i + 1;
    }
    if !found {
        assert(mapped =~= base);
        let ghost before = out@;
        let entry = (key, job_name.to_owned());
        out.push(entry);
        assert(labels_view(out@) =~= labels_view(before).push(label_view(entry)));
        assert(labels_view(out@) =~= base.push((JOB_LABEL_KEY@, job_name@)));
    } else {
        assert(labels_view(out@) =~= mapped);
    }
    out
}

} // verus!
