//! Per-candidate planning: one candidate yields at most one output target.
//!
//! The output path is the output directory joined with the candidate's stem
//! and its resolved extension. The resolved extension is the source's own,
//! unless the source is in the legacy encoding: then conversion is planned
//! and the resolved extension is the canonical one, so the converted file
//! and the final resized file share one logical output path. This settles a
//! point the behaviour could be read two ways on: when conversion triggers,
//! the resize step reads the converted output, never the legacy source.

use vstd::prelude::*;
use crate::format::FormatTag;
use crate::format::canonical_ext;
use crate::format::canonical_extension;
use crate::format::format_of_extension;
use crate::format::format_of_spec;
use crate::job::Job;
use crate::paths::join_path;
use crate::paths::join_spec;
use crate::paths::path_ext;
use crate::paths::path_stem;
use crate::paths::extension_of;
use crate::paths::stem_of;
use crate::select::select_spec;
use crate::select::select_candidates;

verus! {

/// What one candidate's run will do: where to read, where to write, whether
/// a conversion precedes the resize, and the exact target dimensions.
pub struct Plan {
    pub source: String,
    pub output: String,
    pub needs_convert: bool,
    pub width: u32,
    pub height: u32,
}

/// The extension the output carries: the canonical one when the source is
/// in the legacy encoding, the source's own otherwise.
pub open spec fn resolved_ext_spec(ext: Seq<char>) -> Seq<char> {
    if format_of_spec(ext) is Legacy {
        canonical_ext()
    } else {
        ext
    }
}

/// A file name assembled from a stem and an extension; an empty extension
/// adds no dot.
pub open spec fn output_name_spec(stem: Seq<char>, ext: Seq<char>) -> Seq<char> {
    if ext.len() == 0 {
        stem
    } else {
        stem + "."@ + ext
    }
}

/// The output path a candidate maps to.
pub open spec fn planned_output_spec(out_dir: Seq<char>, source: Seq<char>) -> Seq<char> {
    join_spec(out_dir, output_name_spec(path_stem(source), resolved_ext_spec(path_ext(source))))
}

impl Plan {
    /// A well-formed plan has positive target dimensions.
    pub open spec fn wf(&self) -> bool {
        self.width >= 1 && self.height >= 1
    }
}

/// Plans one candidate: conversion exactly when the source's extension is
/// the legacy one, and an output path derived from stem and resolved
/// extension.
pub fn plan_for(job: &Job, source: &String) -> (r: Plan)
    requires
        job.wf(),
    ensures
        r.source@ == source@,
        r.needs_convert == (format_of_spec(path_ext(source@)) is Legacy),
        r.output@ == planned_output_spec(job.output_dir@, source@),
        r.width == job.width,
        r.height == job.height,
        r.wf(),
{
    let stem = stem_of(source.as_str());
    let ext = extension_of(source.as_str());
    let tag = format_of_extension(ext.as_str());
    let needs_convert = tag == FormatTag::Legacy;
    let resolved = if needs_convert {
        canonical_extension()
    } else {
        ext
    };
    let name = if resolved.as_str().is_empty() {
        stem
    } else {
        stem.concat(".").concat(resolved.as_str())
    };
    proof {
        assert(name@ == output_name_spec(
            path_stem(source@),
            resolved_ext_spec(path_ext(source@)),
        ));
    }
    let output = join_path(job.output_dir.as_str(), name.as_str());
    Plan { source: source.clone(), output, needs_convert, width: job.width, height: job.height }
}

/// The output paths a whole batch maps to, in selection order.
pub open spec fn planned_outputs_spec(
    out_dir: Seq<char>,
    names: Seq<Seq<char>>,
    filter: Seq<char>,
) -> Seq<Seq<char>> {
    select_spec(names, filter).map_values(|n: Seq<char>| planned_output_spec(out_dir, n))
}

/// Plans a whole batch: one plan per selected candidate, in selection
/// order, each derived from the job and the candidate's path alone.
pub fn plan_batch(job: &Job, names: &Vec<String>) -> (r: Vec<Plan>)
    requires
        job.wf(),
    ensures
        ({
            let sel = select_spec(names@.map_values(|s: String| s@), job.filter_ext@);
            &&& r@.len() == sel.len()
            &&& forall|i: int|
                0 <= i < r@.len() ==> {
                    &&& (#[trigger] r@[i]).source@ == sel[i]
                    &&& r@[i].output@ == planned_output_spec(job.output_dir@, sel[i])
                    &&& r@[i].needs_convert == (format_of_spec(path_ext(sel[i])) is Legacy)
                    &&& r@[i].width == job.width
                    &&& r@[i].height == job.height
                }
            &&& r@.map_values(|p: Plan| p.output@) == planned_outputs_spec(
                job.output_dir@,
                names@.map_values(|s: String| s@),
                job.filter_ext@,
            )
        }),
{
    let selected = select_candidates(names, &job.filter_ext);
    let ghost sel = select_spec(names@.map_values(|s: String| s@), job.filter_ext@);
    let mut out: Vec<Plan> = Vec::new();
    let mut i: usize = 0;
    while i < selected.len()
        invariant
            i <= selected.len(),
            job.wf(),
            selected@.map_values(|s: String| s@) == sel,
            out@.len() == i,
            forall|k: int|
                0 <= k < i ==> {
                    &&& (#[trigger] out@[k]).source@ == sel[k]
                    &&& out@[k].output@ == planned_output_spec(job.output_dir@, sel[k])
                    &&& out@[k].needs_convert == (format_of_spec(path_ext(sel[k])) is Legacy)
                    &&& out@[k].width == job.width
                    &&& out@[k].height == job.height
                },
        decreases selected.len() - i,
    {
        let p = plan_for(job, &selected[i]);
        proof {
            assert(selected@[i as int]@ == sel[i as int]);
        }
        out.push(p);
        i = i + 1;
    }
    proof {
        assert(out@.map_values(|p: Plan| p.output@) =~= planned_outputs_spec(
            job.output_dir@,
            names@.map_values(|s: String| s@),
            job.filter_ext@,
        ));
    }
    out
}

/// A legacy-format source maps to an output path whose extension is the
/// canonical one: after its run, what stands at that path was written by
/// the canonical encoder, both by the conversion step and by the resize
/// that reads the converted file back.
pub proof fn lemma_legacy_maps_to_canonical(out_dir: Seq<char>, source: Seq<char>)
    requires
        format_of_spec(path_ext(source)) is Legacy,
    ensures
        path_ext(planned_output_spec(out_dir, source)) == canonical_ext(),
        path_stem(planned_output_spec(out_dir, source)) == path_stem(source),
{
    let stem = path_stem(source);
    let resolved = resolved_ext_spec(path_ext(source));
    assert(resolved == canonical_ext());
    reveal_strlit("png");
    reveal_strlit("webp");
    assert(canonical_ext().len() == 3);
    assert(forall|j: int| 0 <= j < canonical_ext().len() ==> canonical_ext()[j] != '.');
    assert(forall|j: int| 0 <= j < canonical_ext().len() ==> canonical_ext()[j] != '/');
    assert(path_ext(source).len() == 4);
    crate::paths::lemma_stem_nonempty(source);
    let name = output_name_spec(stem, resolved);
    assert(name == stem + "."@ + resolved);
    crate::paths::lemma_split_of_dotted_name(stem, resolved);
    crate::paths::lemma_file_name_no_sep(source);
    reveal_strlit(".");
    assert forall|j: int| 0 <= j < name.len() implies name[j] != '/' by {
        crate::paths::lemma_stem_no_sep(source);
    }
    crate::paths::lemma_file_name_of_join(out_dir, name);
}

/// Planning is a function of the job and the enumerated names alone: two
/// runs over identical inputs plan identical outputs. Byte-identical output
/// files additionally assume that the encoders behave as pure functions of
/// image and settings, which is checked against the canonical encoder by
/// test.
pub proof fn lemma_batch_deterministic(
    out_dir: Seq<char>,
    names: Seq<Seq<char>>,
    filter: Seq<char>,
    first: Seq<Seq<char>>,
    second: Seq<Seq<char>>,
)
    requires
        first == planned_outputs_spec(out_dir, names, filter),
        second == planned_outputs_spec(out_dir, names, filter),
    ensures
        first == second,
{
}

} // verus!
