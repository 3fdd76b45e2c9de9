//! The decisions made while discovering capabilities and creating objects from
//! discovered descriptors: ordering and de-duplicating discovered names, hiding
//! encoders, ordering modules, and checking that a descriptor has the right kind.
use vstd::prelude::*;
use crate::capabilities::{
    encoder_kind_name, holds_name, source_kind_name, EncoderKind, EncoderTypeInfo, ModuleInfo,
    SourceKind, SourceTypeInfo,
};
use crate::error::ObsError;
use crate::flags::ENCODER_HIDE_FLAGS;
use crate::rank::{is_rank_order, rank_order, ranked_before, RankKey};
use crate::text::{chars_of, lemma_lex_strict_total, lemma_lex_transitive, lex_lt, str_eq};

verus! {

/// Every name of `v` appears in `w`, by value.
pub open spec fn names_within(v: Seq<String>, w: Seq<String>) -> bool {
    forall|i: int| 0 <= i < v.len() ==> exists|k: int| 0 <= k < w.len() && w[k] == #[trigger] v[i]
}

/// Some name of `v` equals `name`.
pub open spec fn has_name(v: Seq<String>, name: Seq<char>) -> bool {
    exists|k: int| 0 <= k < v.len() && v[k]@ == name
}

/// The names are in strictly increasing lexicographic order, so none repeats.
pub open spec fn strictly_sorted(v: Seq<String>) -> bool {
    forall|a: int, b: int| 0 <= a < b < v.len() ==> lex_lt((#[trigger] v[a])@, (#[trigger] v[b])@)
}

fn name_keys(names: &Vec<String>) -> (keys: Vec<RankKey>)
    ensures
        keys.len() == names.len(),
        keys@.map_values(|k: RankKey| k@) == Seq::new(names@.len(), |i: int| (false, names@[i]@)),
{
    let mut keys: Vec<RankKey> = Vec::new();
    for i in 0..names.len()
        invariant
            keys.len() == i,
            forall|j: int| 0 <= j < i ==> (#[trigger] keys@[j])@ == (false, names@[j]@),
    {
        keys.push(RankKey { preferred: false, name: chars_of(names[i].as_str()) });
    }
    assert(keys@.map_values(|k: RankKey| k@) =~= Seq::new(names@.len(), |i: int| (false, names@[i]@)));
    keys
}

proof fn lemma_sorted_push(before: Seq<String>, x: String)
    requires
        strictly_sorted(before),
        before.len() > 0 ==> lex_lt(before.last()@, x@),
    ensures
        strictly_sorted(before.push(x)),
{
    let out = before.push(x);
    assert forall|a: int, b: int| 0 <= a < b < out.len() implies lex_lt((#[trigger] out[a])@, (#[trigger] out[b])@) by {
        if b < before.len() {
            assert(out[a] == before[a]);
            assert(out[b] == before[b]);
        } else if a < before.len() - 1 {
            assert(lex_lt(before[a]@, before[before.len() - 1]@));
            lemma_lex_transitive(before[a]@, before.last()@, x@);
        }
    }
}

proof fn lemma_within_push(before: Seq<String>, names: Seq<String>, idx: int)
    requires
        names_within(before, names),
        0 <= idx < names.len(),
    ensures
        names_within(before.push(names[idx]), names),
{
    let out = before.push(names[idx]);
    assert forall|i: int| 0 <= i < out.len() implies exists|k: int| 0 <= k < names.len() && names[k] == #[trigger] out[i] by {
        if i < before.len() {
            assert(out[i] == before[i]);
        } else {
            assert(names[idx] == out[i]);
        }
    }
}

proof fn lemma_all_covered(
    kv: Seq<(bool, Seq<char>)>,
    cand: Seq<bool>,
    order: Seq<usize>,
    out: Seq<String>,
    names: Seq<String>,
)
    requires
        is_rank_order(kv, cand, order),
        kv.len() == names.len(),
        cand.len() == names.len(),
        forall|i: int| 0 <= i < cand.len() ==> cand[i],
        forall|m: int| 0 <= m < order.len() ==> #[trigger] has_name(out, names[order[m] as int]@),
    ensures
        forall|i: int| 0 <= i < names.len() ==> #[trigger] has_name(out, names[i]@),
{
    assert forall|i: int| 0 <= i < names.len() implies #[trigger] has_name(out, names[i]@) by {
        assert(cand[i]);
        let m = choose|m: int| 0 <= m < order.len() && order[m] == i;
        assert(has_name(out, names[order[m] as int]@));
    }
}

/// The names in lexicographic order with repetitions removed, as libobs enumerations are
/// reported.
pub fn sorted_unique_names(names: Vec<String>) -> (r: Vec<String>)
    ensures
        strictly_sorted(r@),
        names_within(r@, names@),
        forall|i: int| 0 <= i < names@.len() ==> #[trigger] has_name(r@, names@[i]@),
{
    let keys = name_keys(&names);
    let ghost kv = Seq::new(names@.len(), |i: int| (false, names@[i]@));
    let mut cand: Vec<bool> = Vec::new();
    for i in 0..names.len()
        invariant
            cand.len() == i,
            cand@ =~= Seq::new(i as nat, |j: int| true),
    {
        cand.push(true);
    }
    let order = rank_order(&keys, &cand);
    assert(is_rank_order(kv, cand@, order@));
    let mut out: Vec<String> = Vec::new();
    let mut k: usize = 0;
    while k < order.len()
        invariant
            kv == Seq::new(names@.len(), |i: int| (false, names@[i]@)),
            is_rank_order(kv, cand@, order@),
            cand@.len() == names@.len(),
            forall|i: int| 0 <= i < cand@.len() ==> cand@[i],
            k <= order.len(),
            strictly_sorted(out@),
            names_within(out@, names@),
            out.len() > 0 ==> k > 0 && out@.last()@ == names@[order@[k - 1] as int]@,
            k > 0 ==> out.len() > 0,
            forall|m: int| 0 <= m < k ==> #[trigger] has_name(out@, names@[order@[m] as int]@),
        decreases order.len() - k,
    {
        let idx = order[k];
        let ghost before = out@;
        if out.len() == 0 || !crate::text::str_eq(out[out.len() - 1].as_str(), names[idx].as_str()) {
            proof {
                if before.len() > 0 {
                    let prev = order@[k - 1] as int;
                    assert(ranked_before(kv, order@[k - 1] as int, order@[k as int] as int));
                    assert(prev < kv.len());
                    lemma_lex_strict_total(before.last()@, names@[idx as int]@);
                }
            }
            out.push(names[idx].clone());
            proof {
                lemma_sorted_push(before, names@[idx as int]);
                lemma_within_push(before, names@, idx as int);
                assert forall|m: int| 0 <= m < k + 1 implies #[trigger] has_name(out@, names@[order@[m] as int]@) by {
                    if m < k {
                        assert(has_name(before, names@[order@[m] as int]@));
                        let j = choose|j: int| 0 <= j < before.len() && before[j]@ == names@[order@[m] as int]@;
                        assert(out@[j] == before[j]);
                    } else {
                        assert(out@[out@.len() - 1] == names@[idx as int]);
                    }
                }
            }
        } else {
            proof {
                assert forall|m: int| 0 <= m < k + 1 implies #[trigger] has_name(out@, names@[order@[m] as int]@) by {
                    if m == k {
                        assert(out@[out@.len() - 1]@ == names@[idx as int]@);
                    }
                }
            }
        }
        k = k + 1;
    }
    proof {
        lemma_all_covered(kv, cand@, order@, out@, names@);
    }
    out
}


/// `e` reports that descriptor `id` has kind `actual` where kind `expected` is required.
pub open spec fn is_kind_mismatch(e: ObsError, id: Seq<char>, expected: Seq<char>, actual: Seq<char>) -> bool {
    e matches ObsError::CapabilityKindMismatch { id: i, expected: x, actual: a } && i@ == id
        && x@ == expected && a@ == actual
}

/// The error for descriptor `id` of kind `actual` used where kind `expected` is required.
pub fn capability_kind_mismatch(id: &str, expected: &str, actual: &str) -> (e: ObsError)
    ensures
        is_kind_mismatch(e, id@, expected@, actual@),
{
    ObsError::CapabilityKindMismatch {
        id: id.to_owned(),
        expected: expected.to_owned(),
        actual: actual.to_owned(),
    }
}

/// A kind refusal: the descriptor, the kind required and the kind it has.
pub ghost struct KindMismatch {
    pub id: Seq<char>,
    pub expected: Seq<char>,
    pub actual: Seq<char>,
}

/// What creating an object from a discovered descriptor answers, in the order the checks
/// are made: the descriptor must come from the same runtime as the context, it must have
/// the required kind (when `kind_error` is given), and the settings, if any, must come from
/// the same runtime too.
pub open spec fn creation_checked(
    r: Result<(), ObsError>,
    context_runtime: u64,
    descriptor_runtime: u64,
    kind_error: Option<KindMismatch>,
    settings_runtime: Option<u64>,
) -> bool {
    if context_runtime != descriptor_runtime {
        r == Err::<(), ObsError>(ObsError::RuntimeMismatch)
    } else if kind_error is Some {
        r is Err && is_kind_mismatch(
            r->Err_0,
            kind_error->0.id,
            kind_error->0.expected,
            kind_error->0.actual,
        )
    } else if settings_runtime is Some && settings_runtime->0 != context_runtime {
        r == Err::<(), ObsError>(ObsError::RuntimeMismatch)
    } else {
        r is Ok
    }
}

fn check_settings_runtime(context_runtime: u64, settings_runtime: Option<u64>) -> (r: Result<(), ObsError>)
    ensures
        r is Ok <==> (settings_runtime is None || settings_runtime->0 == context_runtime),
        r is Err ==> r == Err::<(), ObsError>(ObsError::RuntimeMismatch),
{
    match settings_runtime {
        Some(rt) => {
            if rt != context_runtime {
                Err(ObsError::RuntimeMismatch)
            } else {
                Ok(())
            }
        },
        None => Ok(()),
    }
}

/// A filter descriptor cannot create a plain source.
pub open spec fn source_kind_refusal(t: SourceTypeInfo) -> Option<KindMismatch> {
    if t.spec_kind() == SourceKind::Filter {
        Some(KindMismatch { id: t.spec_id()@, expected: "source/input/transition"@, actual: "filter"@ })
    } else {
        None
    }
}

/// Only a filter descriptor can create a filter.
pub open spec fn filter_kind_refusal(t: SourceTypeInfo) -> Option<KindMismatch> {
    if t.spec_kind() != SourceKind::Filter {
        Some(KindMismatch { id: t.spec_id()@, expected: "filter"@, actual: source_kind_name(t.spec_kind()) })
    } else {
        None
    }
}

/// Only an encoder descriptor of the expected kind can create that encoder.
pub open spec fn encoder_kind_refusal(t: EncoderTypeInfo, expected: EncoderKind) -> Option<KindMismatch> {
    if t.spec_kind() != expected {
        Some(
            KindMismatch {
                id: t.spec_id()@,
                expected: encoder_role_name(expected),
                actual: encoder_kind_name(t.spec_kind()),
            },
        )
    } else {
        None
    }
}

/// The checks made before a source (an input, a transition or another non-filter source)
/// is created from a discovered descriptor: a filter descriptor is refused.
pub fn check_source_creation(
    context_runtime: u64,
    descriptor_runtime: u64,
    source_type: &SourceTypeInfo,
    settings_runtime: Option<u64>,
) -> (r: Result<(), ObsError>)
    ensures
        creation_checked(
            r,
            context_runtime,
            descriptor_runtime,
            source_kind_refusal(*source_type),
            settings_runtime,
        ),
{
    if context_runtime != descriptor_runtime {
        return Err(ObsError::RuntimeMismatch);
    }
    if source_type.kind() == SourceKind::Filter {
        return Err(capability_kind_mismatch(source_type.id(), "source/input/transition", "filter"));
    }
    check_settings_runtime(context_runtime, settings_runtime)
}

/// The checks made before a filter is created from a discovered descriptor: any descriptor
/// that is not a filter is refused, and the error names its kind.
pub fn check_filter_creation(
    context_runtime: u64,
    descriptor_runtime: u64,
    filter_type: &SourceTypeInfo,
    settings_runtime: Option<u64>,
) -> (r: Result<(), ObsError>)
    ensures
        creation_checked(
            r,
            context_runtime,
            descriptor_runtime,
            filter_kind_refusal(*filter_type),
            settings_runtime,
        ),
{
    if context_runtime != descriptor_runtime {
        return Err(ObsError::RuntimeMismatch);
    }
    let kind = filter_type.kind();
    if kind != SourceKind::Filter {
        return Err(capability_kind_mismatch(filter_type.id(), "filter", kind.debug_name()));
    }
    check_settings_runtime(context_runtime, settings_runtime)
}

/// The name that a creation error gives the encoder kind that was required.
pub open spec fn encoder_role_name(expected: EncoderKind) -> Seq<char> {
    if expected == EncoderKind::Video {
        "video encoder"@
    } else {
        "audio encoder"@
    }
}

/// The checks made before a video or an audio encoder is created from a discovered
/// descriptor: a descriptor of any other encoder kind is refused, and the error names it.
pub fn check_encoder_creation(
    context_runtime: u64,
    descriptor_runtime: u64,
    encoder_type: &EncoderTypeInfo,
    expected: EncoderKind,
    settings_runtime: Option<u64>,
) -> (r: Result<(), ObsError>)
    requires
        expected == EncoderKind::Video || expected == EncoderKind::Audio,
    ensures
        creation_checked(
            r,
            context_runtime,
            descriptor_runtime,
            encoder_kind_refusal(*encoder_type, expected),
            settings_runtime,
        ),
{
    if context_runtime != descriptor_runtime {
        return Err(ObsError::RuntimeMismatch);
    }
    let kind = encoder_type.kind();
    if kind != expected {
        let role = if expected == EncoderKind::Video { "video encoder" } else { "audio encoder" };
        let actual = kind.debug_name();
        return Err(capability_kind_mismatch(encoder_type.id(), role, actual.as_str()));
    }
    check_settings_runtime(context_runtime, settings_runtime)
}

/// The checks made before an output or a service is created from a discovered descriptor:
/// only the runtimes are compared.
pub fn check_descriptor_creation(
    context_runtime: u64,
    descriptor_runtime: u64,
    settings_runtime: Option<u64>,
) -> (r: Result<(), ObsError>)
    ensures
        creation_checked(r, context_runtime, descriptor_runtime, None, settings_runtime),
{
    if context_runtime != descriptor_runtime {
        return Err(ObsError::RuntimeMismatch);
    }
    check_settings_runtime(context_runtime, settings_runtime)
}


/// An enumerated encoder type is offered for `wanted` when it has that raw encoder type and
/// none of the hiding capabilities.
pub open spec fn encoder_offered(row: (String, i64, u32), wanted: i64) -> bool {
    row.1 == wanted && (row.2 & ENCODER_HIDE_FLAGS) == 0
}

/// The ranking keys that order enumerated encoder types by identifier.
pub open spec fn encoder_row_keys(rows: Seq<(String, i64, u32)>) -> Seq<(bool, Seq<char>)> {
    Seq::new(rows.len(), |i: int| (false, rows[i].0@))
}

/// Which enumerated encoder types are offered for `wanted`.
pub open spec fn encoders_offered(rows: Seq<(String, i64, u32)>, wanted: i64) -> Seq<bool> {
    Seq::new(rows.len(), |i: int| encoder_offered(rows[i], wanted))
}

/// Every entry is a candidate.
pub open spec fn all_candidates(n: nat) -> Seq<bool> {
    Seq::new(n, |i: int| true)
}

/// The identifiers of the enumerated encoder types `(id, raw type, capabilities)` that are
/// offered for encoder type `wanted`, in lexicographic order; an identifier enumerated twice
/// is kept twice.
pub fn visible_encoder_ids(rows: &Vec<(String, i64, u32)>, wanted: i64) -> (r: Vec<String>)
    ensures
        exists|p: Seq<usize>|
            {
                &&& #[trigger] is_rank_order(encoder_row_keys(rows@), encoders_offered(rows@, wanted), p)
                &&& r@.len() == p.len()
                &&& forall|k: int| 0 <= k < p.len() ==> r@[k] == (#[trigger] rows@[p[k] as int]).0
            },
{
    let ghost kv = encoder_row_keys(rows@);
    let ghost cv = encoders_offered(rows@, wanted);
    let mut keys: Vec<RankKey> = Vec::new();
    let mut cand: Vec<bool> = Vec::new();
    let mut i: usize = 0;
    while i < rows.len()
        invariant
            i <= rows.len(),
            keys.len() == i,
            cand.len() == i,
            kv == encoder_row_keys(rows@),
            cv == encoders_offered(rows@, wanted),
            forall|j: int| 0 <= j < i ==> (#[trigger] keys@[j])@ == kv[j],
            forall|j: int| 0 <= j < i ==> #[trigger] cand@[j] == cv[j],
        decreases rows.len() - i,
    {
        let row = &rows[i];
        keys.push(RankKey { preferred: false, name: chars_of(row.0.as_str()) });
        cand.push(row.1 == wanted && (row.2 & ENCODER_HIDE_FLAGS) == 0);
        i = i + 1;
    }
    assert(keys@.map_values(|k: RankKey| k@) =~= kv);
    assert(cand@ =~= cv);
    let order = rank_order(&keys, &cand);
    let mut out: Vec<String> = Vec::new();
    let mut k: usize = 0;
    while k < order.len()
        invariant
            k <= order.len(),
            out.len() == k,
            is_rank_order(kv, cv, order@),
            kv.len() == rows@.len(),
            forall|m: int| 0 <= m < k ==> out@[m] == (#[trigger] rows@[order@[m] as int]).0,
        decreases order.len() - k,
    {
        let idx = order[k];
        assert(order@[k as int] < kv.len());
        out.push(rows[idx].0.clone());
        k = k + 1;
    }
    assert(is_rank_order(kv, cv, order@));
    out
}

/// The ranking keys that order modules by file name, modules without one first.
pub open spec fn module_keys(mods: Seq<ModuleInfo>) -> Seq<(bool, Seq<char>)> {
    Seq::new(
        mods.len(),
        |i: int|
            match mods[i].file_name {
                Some(f) => (false, f@),
                None => (true, Seq::empty()),
            },
    )
}

fn copy_module(m: &ModuleInfo) -> (r: ModuleInfo)
    ensures
        r == *m,
{
    ModuleInfo {
        file_name: copy_opt(&m.file_name),
        name: copy_opt(&m.name),
        author: copy_opt(&m.author),
        description: copy_opt(&m.description),
        binary_path: copy_opt(&m.binary_path),
        data_path: copy_opt(&m.data_path),
    }
}

fn copy_opt(o: &Option<String>) -> (r: Option<String>)
    ensures
        r == *o,
{
    match o {
        Some(s) => Some(s.clone()),
        None => None,
    }
}

/// The loaded modules ordered by file name, modules without a file name first; modules
/// with equal file names keep their enumeration order.
pub fn sort_modules(mods: &Vec<ModuleInfo>) -> (r: Vec<ModuleInfo>)
    ensures
        exists|p: Seq<usize>|
            {
                &&& #[trigger] is_rank_order(module_keys(mods@), all_candidates(mods@.len()), p)
                &&& r@.len() == p.len()
                &&& forall|k: int| 0 <= k < p.len() ==> r@[k] == #[trigger] mods@[p[k] as int]
            },
{
    let ghost kv = module_keys(mods@);
    let ghost cv = all_candidates(mods@.len());
    let mut keys: Vec<RankKey> = Vec::new();
    let mut cand: Vec<bool> = Vec::new();
    let mut i: usize = 0;
    while i < mods.len()
        invariant
            i <= mods.len(),
            keys.len() == i,
            cand.len() == i,
            forall|j: int| 0 <= j < i ==> (#[trigger] keys@[j])@ == kv[j],
            forall|j: int| 0 <= j < i ==> #[trigger] cand@[j] == cv[j],
            kv == module_keys(mods@),
            cv == all_candidates(mods@.len()),
        decreases mods.len() - i,
    {
        let key = match &mods[i].file_name {
            Some(f) => RankKey { preferred: false, name: chars_of(f.as_str()) },
            None => RankKey { preferred: true, name: Vec::new() },
        };
        keys.push(key);
        cand.push(true);
        i = i + 1;
    }
    assert(keys@.map_values(|k: RankKey| k@) =~= kv);
    assert(cand@ =~= cv);
    let order = rank_order(&keys, &cand);
    let mut out: Vec<ModuleInfo> = Vec::new();
    let mut k: usize = 0;
    while k < order.len()
        invariant
            k <= order.len(),
            out.len() == k,
            is_rank_order(kv, cv, order@),
            kv.len() == mods@.len(),
            forall|m: int| 0 <= m < k ==> out@[m] == #[trigger] mods@[order@[m] as int],
        decreases order.len() - k,
    {
        let idx = order[k];
        assert(order@[k as int] < kv.len());
        out.push(copy_module(&mods[idx]));
        k = k + 1;
    }
    assert(is_rank_order(kv, cv, order@));
    out
}

/// Protocol `name` is enumerated with output type `id` among its output types.
pub open spec fn protocol_serves(protocols: Seq<(String, Vec<String>)>, name: Seq<char>, id: Seq<char>) -> bool {
    exists|j: int| 0 <= j < protocols.len() && (#[trigger] protocols[j]).0@ == name && holds_name(protocols[j].1@, id)
}

/// The protocols of output type `id`, given each enumerated protocol with the output types
/// that serve it: each protocol once, in lexicographic order.
pub fn output_protocols(id: &str, protocols: &Vec<(String, Vec<String>)>) -> (r: Vec<String>)
    ensures
        strictly_sorted(r@),
        forall|name: Seq<char>| has_name(r@, name) <==> protocol_serves(protocols@, name, id@),
{
    let mut matching: Vec<String> = Vec::new();
    let mut j: usize = 0;
    while j < protocols.len()
        invariant
            j <= protocols.len(),
            forall|m: int| 0 <= m < matching.len() ==> protocol_serves(protocols@, (#[trigger] matching@[m])@, id@),
            forall|q: int| 0 <= q < j && holds_name((#[trigger] protocols@[q]).1@, id@) ==> has_name(matching@, protocols@[q].0@),
        decreases protocols.len() - j,
    {
        let ghost before = matching@;
        if crate::capabilities::list_holds(&protocols[j].1, id) {
            matching.push(protocols[j].0.clone());
            proof {
                assert(protocol_serves(protocols@, protocols@[j as int].0@, id@));
                assert forall|q: int| 0 <= q < j + 1 && holds_name((#[trigger] protocols@[q]).1@, id@) implies has_name(matching@, protocols@[q].0@) by {
                    if q < j {
                        let w = choose|w: int| 0 <= w < before.len() && before[w]@ == protocols@[q].0@;
                        assert(matching@[w] == before[w]);
                    } else {
                        assert(matching@[matching.len() - 1] == protocols@[j as int].0);
                    }
                }
            }
        }
        j = j + 1;
    }
    let r = sorted_unique_names(matching);
    proof {
        assert forall|name: Seq<char>| has_name(r@, name) <==> protocol_serves(protocols@, name, id@) by {
            if has_name(r@, name) {
                let k = choose|k: int| 0 <= k < r@.len() && r@[k]@ == name;
                let w = choose|w: int| 0 <= w < matching@.len() && matching@[w] == #[trigger] r@[k];
                assert(protocol_serves(protocols@, matching@[w]@, id@));
            }
            if protocol_serves(protocols@, name, id@) {
                let q = choose|q: int| 0 <= q < protocols@.len() && (#[trigger] protocols@[q]).0@ == name && holds_name(protocols@[q].1@, id@);
                assert(has_name(matching@, name));
                let w = choose|w: int| 0 <= w < matching@.len() && matching@[w]@ == name;
                assert(has_name(r@, matching@[w]@));
            }
        }
    }
    r
}


/// The best encoder of a kind is the first one offered, in the order the offered encoders
/// are listed; with none offered there is no best one.
pub fn best_encoder_id(available: Vec<String>) -> (r: Result<String, ObsError>)
    ensures
        available@.len() > 0 ==> r == Ok::<String, ObsError>(available@[0]),
        available@.len() == 0 ==> r == Err::<String, ObsError>(ObsError::NoAvailableEncoders),
{
    let mut available = available;
    if available.len() == 0 {
        return Err(ObsError::NoAvailableEncoders);
    }
    Ok(available.remove(0))
}

} // verus!
