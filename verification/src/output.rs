//! Output wiring: audio mixer bounds, the desired encoder/service composition of an
//! output, and validation of a complete output pipeline before anything is created.
use std::collections::HashMap;
use vstd::prelude::*;
use vstd::std_specs::iter::IteratorSpec;
use crate::capabilities::{list_supports, OutputTypeInfo, OutputTypeModel};
use crate::error::ObsError;
use crate::flags::{bits_contain, OBS_OUTPUT_AUDIO, OBS_OUTPUT_ENCODED, OBS_OUTPUT_SERVICE, OBS_OUTPUT_VIDEO};
use crate::text::{decimal, push_decimal};

verus! {

broadcast use vstd::std_specs::hash::group_hash_axioms;

/// The number of audio mixers libobs provides; mixer indices run below it.
pub const MAX_AUDIO_MIXES: usize = 6;

/// The message for an audio mixer index beyond the last mixer.
pub open spec fn mixer_error_message(mixer_idx: nat) -> Seq<char> {
    "Audio mixer index "@ + decimal(mixer_idx) + " is out of bounds (max "@ + decimal(
        (MAX_AUDIO_MIXES - 1) as nat,
    ) + ")"@
}

/// Checks that `mixer_idx` names an existing audio mixer.
pub fn validate_audio_mixer(mixer_idx: usize) -> (r: Result<(), ObsError>)
    ensures
        mixer_idx < MAX_AUDIO_MIXES ==> r is Ok,
        mixer_idx >= MAX_AUDIO_MIXES ==> (r matches Err(ObsError::InvalidOperation(m))
            && m@ == mixer_error_message(mixer_idx as nat)),
{
    if mixer_idx >= MAX_AUDIO_MIXES {
        let mut m = String::from_str("Audio mixer index ");
        push_decimal(&mut m, mixer_idx as u64);
        m.append(" is out of bounds (max ");
        push_decimal(&mut m, (MAX_AUDIO_MIXES - 1) as u64);
        m.append(")");
        return Err(ObsError::InvalidOperation(m));
    }
    Ok(())
}

/// What a composition holds.
pub struct CompositionModel<V, A, S> {
    pub video_encoder: Option<V>,
    pub audio_encoders: Map<usize, A>,
    pub service: Option<S>,
}

/// Desired encoder/service wiring for an OBS output.
///
/// Applying a composition replaces the complete managed wiring: an omitted video encoder
/// or service is detached, and audio mixer slots not present in `audio_encoders` are
/// cleared.
#[derive(Clone, Debug)]
pub struct ObsOutputComposition<V, A, S> {
    video_encoder: Option<V>,
    audio_encoders: HashMap<usize, A>,
    service: Option<S>,
}

impl<V, A, S> View for ObsOutputComposition<V, A, S> {
    type V = CompositionModel<V, A, S>;

    closed spec fn view(&self) -> CompositionModel<V, A, S> {
        CompositionModel {
            video_encoder: self.video_encoder,
            audio_encoders: self.audio_encoders@,
            service: self.service,
        }
    }
}

impl<V, A, S> ObsOutputComposition<V, A, S> {
    /// A composition with nothing attached.
    pub fn new() -> (r: Self)
        ensures
            r@.video_encoder is None,
            r@.audio_encoders == Map::<usize, A>::empty(),
            r@.service is None,
    {
        ObsOutputComposition { video_encoder: None, audio_encoders: HashMap::new(), service: None }
    }

    pub fn with_video_encoder(self, encoder: V) -> (r: Self)
        ensures
            r@.video_encoder == Some(encoder),
            r@.audio_encoders == self@.audio_encoders,
            r@.service == self@.service,
    {
        ObsOutputComposition { video_encoder: Some(encoder), ..self }
    }

    /// Attaches `encoder` at mixer `mixer_idx`, replacing what was there.
    pub fn with_audio_encoder(self, mixer_idx: usize, encoder: A) -> (r: Self)
        ensures
            r@.audio_encoders == self@.audio_encoders.insert(mixer_idx, encoder),
            r@.video_encoder == self@.video_encoder,
            r@.service == self@.service,
    {
        let mut audio = self.audio_encoders;
        audio.insert(mixer_idx, encoder);
        ObsOutputComposition { video_encoder: self.video_encoder, audio_encoders: audio, service: self.service }
    }

    pub fn with_service(self, service: S) -> (r: Self)
        ensures
            r@.service == Some(service),
            r@.video_encoder == self@.video_encoder,
            r@.audio_encoders == self@.audio_encoders,
    {
        ObsOutputComposition { service: Some(service), ..self }
    }

    pub fn without_video_encoder(self) -> (r: Self)
        ensures
            r@.video_encoder is None,
            r@.audio_encoders == self@.audio_encoders,
            r@.service == self@.service,
    {
        ObsOutputComposition { video_encoder: None, ..self }
    }

    /// Detaches whatever is attached at mixer `mixer_idx`.
    pub fn without_audio_encoder(self, mixer_idx: usize) -> (r: Self)
        ensures
            r@.audio_encoders == self@.audio_encoders.remove(mixer_idx),
            r@.video_encoder == self@.video_encoder,
            r@.service == self@.service,
    {
        let mut audio = self.audio_encoders;
        audio.remove(&mixer_idx);
        ObsOutputComposition { video_encoder: self.video_encoder, audio_encoders: audio, service: self.service }
    }

    pub fn without_service(self) -> (r: Self)
        ensures
            r@.service is None,
            r@.video_encoder == self@.video_encoder,
            r@.audio_encoders == self@.audio_encoders,
    {
        ObsOutputComposition { service: None, ..self }
    }

    pub fn video_encoder(&self) -> (r: Option<&V>)
        ensures
            r is Some <==> self@.video_encoder is Some,
            r is Some ==> *r->0 == self@.video_encoder->0,
    {
        match &self.video_encoder {
            Some(v) => Some(v),
            None => None,
        }
    }

    pub fn audio_encoders(&self) -> (r: &HashMap<usize, A>)
        ensures
            r@ == self@.audio_encoders,
    {
        &self.audio_encoders
    }

    pub fn service(&self) -> (r: Option<&S>)
        ensures
            r is Some <==> self@.service is Some,
            r is Some ==> *r->0 == self@.service->0,
    {
        match &self.service {
            Some(s) => Some(s),
            None => None,
        }
    }
}

/// The mixer slots after writing, in order, the desired attachment (or a detachment) at
/// every index of `indices`.
pub open spec fn apply_mixer_updates<A>(slots: Map<usize, A>, indices: Seq<usize>, desired: Map<usize, A>) -> Map<usize, A>
    decreases indices.len(),
{
    if indices.len() == 0 {
        slots
    } else {
        let before = apply_mixer_updates(slots, indices.drop_last(), desired);
        let i = indices.last();
        if desired.contains_key(i) {
            before.insert(i, desired[i])
        } else {
            before.remove(i)
        }
    }
}

proof fn lemma_apply_mixer_updates<A>(slots: Map<usize, A>, indices: Seq<usize>, desired: Map<usize, A>)
    ensures
        forall|k: usize|
            #![trigger apply_mixer_updates(slots, indices, desired).contains_key(k)]
            indices.contains(k) ==> (apply_mixer_updates(slots, indices, desired).contains_key(k)
                <==> desired.contains_key(k)) && (desired.contains_key(k) ==> apply_mixer_updates(
                slots,
                indices,
                desired,
            )[k] == desired[k]),
        forall|k: usize|
            #![trigger apply_mixer_updates(slots, indices, desired).contains_key(k)]
            !indices.contains(k) ==> (apply_mixer_updates(slots, indices, desired).contains_key(k)
                <==> slots.contains_key(k)) && (slots.contains_key(k) ==> apply_mixer_updates(
                slots,
                indices,
                desired,
            )[k] == slots[k]),
    decreases indices.len(),
{
    if indices.len() > 0 {
        lemma_apply_mixer_updates(slots, indices.drop_last(), desired);
        let before = apply_mixer_updates(slots, indices.drop_last(), desired);
        let after = apply_mixer_updates(slots, indices, desired);
        let i = indices.last();
        assert forall|k: usize| #![trigger after.contains_key(k)] indices.contains(k) implies (after.contains_key(k) <==> desired.contains_key(k)) && (desired.contains_key(k) ==> after[k] == desired[k]) by {
            if k != i {
                let j = choose|j: int| 0 <= j < indices.len() && indices[j] == k;
                assert(indices.drop_last()[j] == k);
                assert(before.contains_key(k) == after.contains_key(k));
            }
        }
        assert forall|k: usize| #![trigger after.contains_key(k)] !indices.contains(k) implies (after.contains_key(k) <==> slots.contains_key(k)) && (slots.contains_key(k) ==> after[k] == slots[k]) by {
            assert(k != i);
            if indices.drop_last().contains(k) {
                let j = choose|j: int| 0 <= j < indices.drop_last().len() && indices.drop_last()[j] == k;
                assert(indices[j] == k);
            }
        }
    }
}

/// Applying a composition replaces the complete wiring: once every index that is attached
/// now or in the composition has been written, the slots hold exactly the composition's
/// audio encoders.
pub proof fn law_mixer_updates_replace_wiring<A>(slots: Map<usize, A>, indices: Seq<usize>, desired: Map<usize, A>)
    requires
        forall|k: usize| slots.contains_key(k) ==> indices.contains(k),
        forall|k: usize| desired.contains_key(k) ==> indices.contains(k),
    ensures
        apply_mixer_updates(slots, indices, desired) == desired,
{
    lemma_apply_mixer_updates(slots, indices, desired);
    let after = apply_mixer_updates(slots, indices, desired);
    assert forall|k: usize| #[trigger] after.contains_key(k) <==> desired.contains_key(k) by {
        if !indices.contains(k) {
            assert(!slots.contains_key(k));
        }
    }
    assert(after =~= desired);
}

fn push_unique(v: &mut Vec<usize>, x: usize)
    ensures
        final(v)@.to_set() == old(v)@.to_set().insert(x),
        old(v)@.no_duplicates() ==> final(v)@.no_duplicates(),
{
    let mut i: usize = 0;
    while i < v.len()
        invariant
            i <= v.len(),
            forall|j: int| 0 <= j < i ==> v@[j] != x,
        decreases v.len() - i,
    {
        if v[i] == x {
            assert(v@.to_set().contains(x));
            assert(v@.to_set() =~= v@.to_set().insert(x));
            return;
        }
        i = i + 1;
    }
    let ghost before = v@;
    v.push(x);
    assert(v@.to_set() =~= before.to_set().insert(x)) by {
        assert forall|y: usize| v@.to_set().contains(y) <==> before.to_set().insert(x).contains(y) by {
            if y != x && v@.contains(y) {
                let j = choose|j: int| 0 <= j < v@.len() && v@[j] == y;
                assert(before[j] == y);
            }
            if before.contains(y) {
                let j = choose|j: int| 0 <= j < before.len() && before[j] == y;
                assert(v@[j] == y);
            }
            if y == x {
                assert(v@[before.len() as int] == x);
            }
        }
    }
}

/// The mixer indices to write when a composition is applied over the currently attached
/// mixers: every attached mixer and every mixer of the composition, once each. Fails,
/// before anything is written, when the composition uses a mixer that does not exist.
pub fn mixer_update_indices<V, A, S>(composition: &ObsOutputComposition<V, A, S>, attached: &Vec<usize>) -> (r: Result<Vec<usize>, ObsError>)
    ensures
        r is Ok <==> forall|k: usize| composition@.audio_encoders.contains_key(k) ==> k < MAX_AUDIO_MIXES,
        r matches Err(e) ==> exists|k: usize|
            #[trigger] composition@.audio_encoders.contains_key(k) && k >= MAX_AUDIO_MIXES && (e matches ObsError::InvalidOperation(m) && m@ == mixer_error_message(k as nat)),
        r matches Ok(v) ==> v@.no_duplicates() && v@.to_set() == attached@.to_set() + composition@.audio_encoders.dom(),
{
    let ghost dom = composition@.audio_encoders.dom();
    let mut keys: Vec<usize> = Vec::new();
    let ghost all = vstd::std_specs::hash::spec_keys_iter(&composition.audio_encoders).remaining();
    for k in it: composition.audio_encoders.keys()
        invariant
            dom == composition@.audio_encoders.dom(),
            it.seq() == all,
            all.unref().to_set() == dom,
            keys@.len() == it.index(),
            keys@ == all.unref().take(it.index() as int),
            forall|j: int| 0 <= j < keys.len() ==> keys@[j] < MAX_AUDIO_MIXES,
    {
        match validate_audio_mixer(*k) {
            Ok(()) => {},
            Err(e) => {
                assert(all.unref().to_set().contains(*k)) by {
                    assert(all.unref()[it.index() as int] == *k);
                }
                return Err(e);
            },
        }
        let ghost before = keys@;
        keys.push(*k);
        assert(keys@ =~= all.unref().take(it.index() + 1));
    }
    assert(forall|k: usize| dom.contains(k) ==> k < MAX_AUDIO_MIXES) by {
        assert forall|k: usize| dom.contains(k) implies k < MAX_AUDIO_MIXES by {
            let j = choose|j: int| 0 <= j < all.unref().len() && all.unref()[j] == k;
            assert(keys@[j] == k);
        }
    }
    let mut out: Vec<usize> = Vec::new();
    let mut i: usize = 0;
    while i < attached.len()
        invariant
            i <= attached.len(),
            out@.no_duplicates(),
            out@.to_set() == attached@.take(i as int).to_set(),
        decreases attached.len() - i,
    {
        push_unique(&mut out, attached[i]);
        assert(attached@.take(i + 1) =~= attached@.take(i as int).push(attached@[i as int]));
        proof {
            attached@.take(i as int).lemma_push_to_set_commute(attached@[i as int]);
        }
        i = i + 1;
    }
    assert(attached@.take(attached.len() as int) =~= attached@);
    let mut j: usize = 0;
    while j < keys.len()
        invariant
            j <= keys.len(),
            out@.no_duplicates(),
            out@.to_set() == attached@.to_set() + keys@.take(j as int).to_set(),
        decreases keys.len() - j,
    {
        push_unique(&mut out, keys[j]);
        assert(keys@.take(j + 1) =~= keys@.take(j as int).push(keys@[j as int]));
        proof {
            keys@.take(j as int).lemma_push_to_set_commute(keys@[j as int]);
            assert(out@.to_set() =~= attached@.to_set() + keys@.take(j + 1).to_set());
        }
        j = j + 1;
    }
    assert(keys@.take(keys.len() as int) =~= keys@);
    assert(keys@.to_set() =~= dom) by {
        assert forall|k: usize| keys@.to_set().contains(k) <==> dom.contains(k) by {
            if dom.contains(k) {
                let j = choose|j: int| 0 <= j < all.unref().len() && all.unref()[j] == k;
                assert(keys@[j] == k);
            }
        }
    }
    Ok(out)
}

/// What pipeline validation needs to know about the video encoder or the service of a
/// pipeline: the runtime it belongs to and its codec (for an encoder) or protocol (for a
/// service), when it reports one.
pub struct PipelineComponent {
    pub runtime: u64,
    pub name: Option<String>,
}

/// What pipeline validation needs to know about one attached audio encoder.
pub struct AudioPipelineComponent {
    pub mixer_idx: usize,
    pub runtime: u64,
    pub codec: Option<String>,
}

/// Everything an output pipeline is validated on: the runtime of the context that builds
/// it, of the output type and of the settings, and its components. Audio encoders are
/// checked in the order given.
pub struct PipelineFacts {
    pub context_runtime: u64,
    pub output_runtime: u64,
    pub settings_runtime: Option<u64>,
    pub video_encoder: Option<PipelineComponent>,
    pub audio_encoders: Vec<AudioPipelineComponent>,
    pub service: Option<PipelineComponent>,
}

/// Why a pipeline is refused.
pub enum PipelineFault {
    /// A component belongs to another runtime.
    RuntimeMismatch,
    /// The output type requires the named component.
    Missing(Seq<char>),
    /// The output type takes no such component.
    Unexpected(Seq<char>),
    /// An audio encoder sits at a mixer that does not exist.
    MixerOutOfBounds(usize),
    /// The media's codec is not accepted by the output type.
    UnsupportedCodec(Seq<char>, Seq<char>),
    /// The service's protocol is not accepted by the output type.
    UnsupportedProtocol(Seq<char>),
}

/// The error `e` reports fault `f` for the output type `output_id`.
pub open spec fn reports_fault(e: ObsError, output_id: Seq<char>, f: PipelineFault) -> bool {
    match f {
        PipelineFault::RuntimeMismatch => e == ObsError::RuntimeMismatch,
        PipelineFault::Missing(c) => e matches ObsError::OutputPipelineMissingComponent {
            output_id: oid,
            component,
        } && oid@ == output_id && component@ == c,
        PipelineFault::Unexpected(c) => e matches ObsError::OutputPipelineUnexpectedComponent {
            output_id: oid,
            component,
        } && oid@ == output_id && component@ == c,
        PipelineFault::MixerOutOfBounds(i) => e == (ObsError::AudioMixerIndexOutOfBounds {
            index: i,
            max: (MAX_AUDIO_MIXES - 1) as usize,
        }),
        PipelineFault::UnsupportedCodec(media, codec) => e matches ObsError::OutputPipelineUnsupportedCodec {
            output_id: oid,
            media: m,
            codec: c,
        } && oid@ == output_id && m@ == media && c@ == codec,
        PipelineFault::UnsupportedProtocol(p) => e matches ObsError::OutputPipelineUnsupportedProtocol {
            output_id: oid,
            protocol,
        } && oid@ == output_id && protocol@ == p,
    }
}

/// The first audio encoder that sits at a missing mixer or belongs to another runtime.
pub open spec fn audio_slot_fault(s: Seq<AudioPipelineComponent>, context_runtime: u64) -> Option<PipelineFault>
    decreases s.len(),
{
    if s.len() == 0 {
        None
    } else if s[0].mixer_idx >= MAX_AUDIO_MIXES {
        Some(PipelineFault::MixerOutOfBounds(s[0].mixer_idx))
    } else if s[0].runtime != context_runtime {
        Some(PipelineFault::RuntimeMismatch)
    } else {
        audio_slot_fault(s.drop_first(), context_runtime)
    }
}

/// A reported name is refused by a non-empty list of accepted names.
pub open spec fn name_refused(name: Option<String>, accepted: Seq<String>) -> bool {
    name is Some && accepted.len() > 0 && !list_supports(accepted, name->0@)
}

/// The first audio encoder whose codec the output type refuses.
pub open spec fn audio_codec_fault(s: Seq<AudioPipelineComponent>, accepted: Seq<String>) -> Option<PipelineFault>
    decreases s.len(),
{
    if s.len() == 0 {
        None
    } else if name_refused(s[0].codec, accepted) {
        Some(PipelineFault::UnsupportedCodec("audio"@, s[0].codec->0@))
    } else {
        audio_codec_fault(s.drop_first(), accepted)
    }
}

/// The first reason, in checking order, why the pipeline cannot be built for output type
/// `o`; `None` when it can.
///
/// Encoded outputs with the video (audio) flag need a video encoder (at least one audio
/// encoder) and take none otherwise; outputs with the service flag need a service and
/// take none otherwise. Components must belong to the context's runtime, audio encoders
/// must sit at existing mixers, and reported codecs and protocols must be accepted by the
/// output type (an output type that lists none accepts any).
pub open spec fn pipeline_fault(o: OutputTypeModel, f: PipelineFacts) -> Option<PipelineFault> {
    let encoded = bits_contain(o.flags, OBS_OUTPUT_ENCODED);
    let needs_video = encoded && bits_contain(o.flags, OBS_OUTPUT_VIDEO);
    let needs_audio = encoded && bits_contain(o.flags, OBS_OUTPUT_AUDIO);
    let needs_service = bits_contain(o.flags, OBS_OUTPUT_SERVICE);
    let audio = f.audio_encoders@;
    let ctx = f.context_runtime;
    if f.output_runtime != ctx {
        Some(PipelineFault::RuntimeMismatch)
    } else if f.settings_runtime is Some && f.settings_runtime->0 != ctx {
        Some(PipelineFault::RuntimeMismatch)
    } else if needs_video && f.video_encoder is None {
        Some(PipelineFault::Missing("a video encoder"@))
    } else if f.video_encoder is Some && !needs_video {
        Some(PipelineFault::Unexpected("a video encoder"@))
    } else if needs_audio && audio.len() == 0 {
        Some(PipelineFault::Missing("at least one audio encoder"@))
    } else if audio.len() > 0 && !needs_audio {
        Some(PipelineFault::Unexpected("audio encoders"@))
    } else if audio_slot_fault(audio, ctx) is Some {
        audio_slot_fault(audio, ctx)
    } else if needs_service && f.service is None {
        Some(PipelineFault::Missing("a service"@))
    } else if f.service is Some && !needs_service {
        Some(PipelineFault::Unexpected("a service"@))
    } else if f.video_encoder is Some && f.video_encoder->0.runtime != ctx {
        Some(PipelineFault::RuntimeMismatch)
    } else if f.video_encoder is Some && name_refused(f.video_encoder->0.name, o.video_codecs) {
        Some(PipelineFault::UnsupportedCodec("video"@, f.video_encoder->0.name->0@))
    } else if audio_codec_fault(audio, o.audio_codecs) is Some {
        audio_codec_fault(audio, o.audio_codecs)
    } else if f.service is Some && f.service->0.runtime != ctx {
        Some(PipelineFault::RuntimeMismatch)
    } else if f.service is Some && name_refused(f.service->0.name, o.protocols) {
        Some(PipelineFault::UnsupportedProtocol(f.service->0.name->0@))
    } else {
        None
    }
}

proof fn lemma_audio_slots_sound(s: Seq<AudioPipelineComponent>, ctx: u64)
    requires
        audio_slot_fault(s, ctx) is None,
    ensures
        forall|i: int| 0 <= i < s.len() ==> (#[trigger] s[i]).mixer_idx < MAX_AUDIO_MIXES && s[i].runtime == ctx,
    decreases s.len(),
{
    if s.len() > 0 {
        lemma_audio_slots_sound(s.drop_first(), ctx);
        assert forall|i: int| 0 <= i < s.len() implies (#[trigger] s[i]).mixer_idx < MAX_AUDIO_MIXES && s[i].runtime == ctx by {
            if i > 0 {
                assert(s[i] == s.drop_first()[i - 1]);
            }
        }
    }
}

proof fn lemma_audio_codecs_sound(s: Seq<AudioPipelineComponent>, accepted: Seq<String>)
    requires
        audio_codec_fault(s, accepted) is None,
    ensures
        forall|i: int| 0 <= i < s.len() ==> !name_refused((#[trigger] s[i]).codec, accepted),
    decreases s.len(),
{
    if s.len() > 0 {
        lemma_audio_codecs_sound(s.drop_first(), accepted);
        assert forall|i: int| 0 <= i < s.len() implies !name_refused((#[trigger] s[i]).codec, accepted) by {
            if i > 0 {
                assert(s[i] == s.drop_first()[i - 1]);
            }
        }
    }
}

/// A pipeline that validation accepts is complete and consistent: it has exactly the
/// components its output type requires, everything belongs to the context's runtime,
/// every audio encoder sits at an existing mixer, and every reported codec and protocol is
/// one the output type accepts.
pub proof fn law_accepted_pipeline_is_complete(o: OutputTypeModel, f: PipelineFacts)
    requires
        pipeline_fault(o, f) is None,
    ensures
        f.output_runtime == f.context_runtime,
        f.settings_runtime is Some ==> f.settings_runtime->0 == f.context_runtime,
        f.video_encoder is Some <==> bits_contain(o.flags, OBS_OUTPUT_ENCODED) && bits_contain(o.flags, OBS_OUTPUT_VIDEO),
        f.audio_encoders@.len() > 0 <==> bits_contain(o.flags, OBS_OUTPUT_ENCODED) && bits_contain(o.flags, OBS_OUTPUT_AUDIO),
        f.service is Some <==> bits_contain(o.flags, OBS_OUTPUT_SERVICE),
        f.video_encoder matches Some(v) ==> v.runtime == f.context_runtime && !name_refused(v.name, o.video_codecs),
        f.service matches Some(sv) ==> sv.runtime == f.context_runtime && !name_refused(sv.name, o.protocols),
        forall|i: int| 0 <= i < f.audio_encoders@.len() ==> {
            let a = #[trigger] f.audio_encoders@[i];
            &&& a.mixer_idx < MAX_AUDIO_MIXES
            &&& a.runtime == f.context_runtime
            &&& !name_refused(a.codec, o.audio_codecs)
        },
{
    lemma_audio_slots_sound(f.audio_encoders@, f.context_runtime);
    lemma_audio_codecs_sound(f.audio_encoders@, o.audio_codecs);
}

fn component_error(output_type: &OutputTypeInfo, missing: bool, component: &str) -> (r: ObsError)
    ensures
        missing ==> reports_fault(r, output_type@.id@, PipelineFault::Missing(component@)),
        !missing ==> reports_fault(r, output_type@.id@, PipelineFault::Unexpected(component@)),
{
    let output_id = output_type.id().to_owned();
    let component = component.to_owned();
    if missing {
        ObsError::OutputPipelineMissingComponent { output_id, component }
    } else {
        ObsError::OutputPipelineUnexpectedComponent { output_id, component }
    }
}

fn name_refused_exec(name: &Option<String>, accepted: &[String]) -> (r: bool)
    ensures
        r == name_refused(*name, accepted@),
{
    match name {
        Some(n) => accepted.len() > 0 && !crate::capabilities::capability_list_supports(accepted, n.as_str()),
        None => false,
    }
}

/// Validates a complete output pipeline before any output is created, reporting the first
/// problem in checking order.
#[verifier::loop_isolation(false)]
pub fn validate_output_pipeline(output_type: &OutputTypeInfo, facts: &PipelineFacts) -> (r: Result<(), ObsError>)
    ensures
        match pipeline_fault(output_type@, *facts) {
            None => r is Ok,
            Some(f) => r is Err && reports_fault(r->Err_0, output_type@.id@, f),
        },
{
    let ctx = facts.context_runtime;
    if facts.output_runtime != ctx {
        return Err(ObsError::RuntimeMismatch);
    }
    if let Some(settings_runtime) = facts.settings_runtime {
        if settings_runtime != ctx {
            return Err(ObsError::RuntimeMismatch);
        }
    }
    let flags = output_type.capability_flags();
    let encoded = flags.contains(crate::flags::OutputCapabilities::encoded());
    let needs_video = encoded && flags.contains(crate::flags::OutputCapabilities::video());
    let needs_audio = encoded && flags.contains(crate::flags::OutputCapabilities::audio());
    let needs_service = flags.contains(crate::flags::OutputCapabilities::service());

    proof {
        reveal_strlit("a video encoder");
        reveal_strlit("at least one audio encoder");
        reveal_strlit("audio encoders");
        reveal_strlit("a service");
    }
    if needs_video && facts.video_encoder.is_none() {
        return Err(component_error(output_type, true, "a video encoder"));
    }
    if facts.video_encoder.is_some() && !needs_video {
        return Err(component_error(output_type, false, "a video encoder"));
    }
    let audio = &facts.audio_encoders;
    if needs_audio && audio.len() == 0 {
        return Err(component_error(output_type, true, "at least one audio encoder"));
    }
    if audio.len() > 0 && !needs_audio {
        return Err(component_error(output_type, false, "audio encoders"));
    }
    let ghost aseq = audio@;
    let mut i: usize = 0;
    assert(aseq.skip(0) =~= aseq);
    while i < audio.len()
        invariant
            aseq == audio@,
            i <= audio.len(),
            audio_slot_fault(aseq, ctx) == audio_slot_fault(aseq.skip(i as int), ctx),
        decreases audio.len() - i,
    {
        assert(aseq.skip(i as int).drop_first() =~= aseq.skip(i + 1));
        let entry = &audio[i];
        if entry.mixer_idx >= MAX_AUDIO_MIXES {
            return Err(
                ObsError::AudioMixerIndexOutOfBounds {
                    index: entry.mixer_idx,
                    max: MAX_AUDIO_MIXES - 1,
                },
            );
        }
        if entry.runtime != ctx {
            return Err(ObsError::RuntimeMismatch);
        }
        i = i + 1;
    }
    assert(aseq.skip(i as int) =~= Seq::<AudioPipelineComponent>::empty());
    if needs_service && facts.service.is_none() {
        return Err(component_error(output_type, true, "a service"));
    }
    if facts.service.is_some() && !needs_service {
        return Err(component_error(output_type, false, "a service"));
    }
    if let Some(video) = &facts.video_encoder {
        if video.runtime != ctx {
            return Err(ObsError::RuntimeMismatch);
        }
        if name_refused_exec(&video.name, output_type.video_codecs()) {
            let codec = match &video.name {
                Some(n) => n.clone(),
                None => String::new(),
            };
            return Err(
                ObsError::OutputPipelineUnsupportedCodec {
                    output_id: output_type.id().to_owned(),
                    media: String::from_str("video"),
                    codec,
                },
            );
        }
    }
    let mut j: usize = 0;
    assert(aseq.skip(0) =~= aseq);
    while j < audio.len()
        invariant
            aseq == audio@,
            j <= audio.len(),
            audio_codec_fault(aseq, output_type@.audio_codecs) == audio_codec_fault(
                aseq.skip(j as int),
                output_type@.audio_codecs,
            ),
        decreases audio.len() - j,
    {
        assert(aseq.skip(j as int).drop_first() =~= aseq.skip(j + 1));
        let entry = &audio[j];
        if name_refused_exec(&entry.codec, output_type.audio_codecs()) {
            let codec = match &entry.codec {
                Some(n) => n.clone(),
                None => String::new(),
            };
            return Err(
                ObsError::OutputPipelineUnsupportedCodec {
                    output_id: output_type.id().to_owned(),
                    media: String::from_str("audio"),
                    codec,
                },
            );
        }
        j = j + 1;
    }
    assert(aseq.skip(j as int) =~= Seq::<AudioPipelineComponent>::empty());
    if let Some(service) = &facts.service {
        if service.runtime != ctx {
            return Err(ObsError::RuntimeMismatch);
        }
        if name_refused_exec(&service.name, output_type.protocols()) {
            let protocol = match &service.name {
                Some(n) => n.clone(),
                None => String::new(),
            };
            return Err(
                ObsError::OutputPipelineUnsupportedProtocol {
                    output_id: output_type.id().to_owned(),
                    protocol,
                },
            );
        }
    }
    Ok(())
}


/// `r` is the error `e`.
pub open spec fn fails_with(r: Result<(), ObsError>, e: ObsError) -> bool {
    r == Err::<(), ObsError>(e)
}

/// The checks made before a video encoder is attached to an output, and before a
/// component is detached (with the output's own runtime for the component's): an active
/// output is not reconfigured, and a component of another runtime is refused.
pub fn check_attach(active: bool, output_runtime: u64, component_runtime: u64) -> (r: Result<(), ObsError>)
    ensures
        active ==> fails_with(r, ObsError::OutputAlreadyActive),
        !active && output_runtime != component_runtime ==> fails_with(r, ObsError::RuntimeMismatch),
        r is Ok <==> !active && output_runtime == component_runtime,
{
    if active {
        return Err(ObsError::OutputAlreadyActive);
    }
    if output_runtime != component_runtime {
        return Err(ObsError::RuntimeMismatch);
    }
    Ok(())
}

/// The checks made before a service is attached to an output of type `output_type`: an
/// active output is not reconfigured, an output type without the service flag takes no
/// service, and a service of another runtime is refused.
pub fn check_attach_service(
    output_type: &OutputTypeInfo,
    active: bool,
    output_runtime: u64,
    service_runtime: u64,
) -> (r: Result<(), ObsError>)
    ensures
        active ==> fails_with(r, ObsError::OutputAlreadyActive),
        !active && !bits_contain(output_type@.flags, OBS_OUTPUT_SERVICE) ==> r is Err && reports_fault(
            r->Err_0,
            output_type@.id@,
            PipelineFault::Unexpected("a service"@),
        ),
        !active && bits_contain(output_type@.flags, OBS_OUTPUT_SERVICE) && output_runtime
            != service_runtime ==> fails_with(r, ObsError::RuntimeMismatch),
        r is Ok <==> !active && bits_contain(output_type@.flags, OBS_OUTPUT_SERVICE) && output_runtime
            == service_runtime,
{
    if active {
        return Err(ObsError::OutputAlreadyActive);
    }
    if output_type.flags() & OBS_OUTPUT_SERVICE != OBS_OUTPUT_SERVICE {
        return Err(component_error(output_type, false, "a service"));
    }
    if output_runtime != service_runtime {
        return Err(ObsError::RuntimeMismatch);
    }
    Ok(())
}

/// The check made before an output is started: an active output is not started again.
pub fn check_start(active: bool) -> (r: Result<(), ObsError>)
    ensures
        active ==> fails_with(r, ObsError::OutputAlreadyActive),
        r is Ok <==> !active,
{
    if active {
        return Err(ObsError::OutputAlreadyActive);
    }
    Ok(())
}

/// The checks made before an audio encoder is attached to mixer `mixer_idx` of an output
/// (and, with the output's own runtime for the encoder's, before that mixer is cleared):
/// the mixer must exist, then the output must be inactive, then the encoder must belong to
/// the output's runtime.
pub fn check_attach_audio(
    mixer_idx: usize,
    active: bool,
    output_runtime: u64,
    encoder_runtime: u64,
) -> (r: Result<(), ObsError>)
    ensures
        mixer_idx >= MAX_AUDIO_MIXES ==> (r matches Err(ObsError::InvalidOperation(m))
            && m@ == mixer_error_message(mixer_idx as nat)),
        mixer_idx < MAX_AUDIO_MIXES && active ==> fails_with(r, ObsError::OutputAlreadyActive),
        mixer_idx < MAX_AUDIO_MIXES && !active && output_runtime != encoder_runtime ==> fails_with(
            r,
            ObsError::RuntimeMismatch,
        ),
        r is Ok <==> mixer_idx < MAX_AUDIO_MIXES && !active && output_runtime == encoder_runtime,
{
    validate_audio_mixer(mixer_idx)?;
    check_attach(active, output_runtime, encoder_runtime)
}

/// Every runtime in `rts` is `rt`.
pub open spec fn all_in_runtime(rts: Seq<u64>, rt: u64) -> bool {
    forall|i: int| 0 <= i < rts.len() ==> rts[i] == rt
}

/// The optional component belongs to runtime `rt`, or there is none.
pub open spec fn in_runtime(c: Option<u64>, rt: u64) -> bool {
    c is None || c->0 == rt
}

/// The checks made before a composition is applied to an output, in their order: the
/// output must be inactive, every mixer of the composition must exist, and the video
/// encoder, every audio encoder and the service must belong to the output's runtime. On
/// success, gives the mixers to write: those attached now and those of the composition.
pub fn check_composition<V, A, S>(
    composition: &ObsOutputComposition<V, A, S>,
    attached: &Vec<usize>,
    active: bool,
    output_runtime: u64,
    video_runtime: Option<u64>,
    audio_runtimes: &Vec<u64>,
    service_runtime: Option<u64>,
) -> (r: Result<Vec<usize>, ObsError>)
    ensures
        active ==> r == Err::<Vec<usize>, ObsError>(ObsError::OutputAlreadyActive),
        !active && !(forall|k: usize| composition@.audio_encoders.contains_key(k) ==> k < MAX_AUDIO_MIXES)
            ==> r matches Err(ObsError::InvalidOperation(_)),
        r is Ok <==> !active && (forall|k: usize|
            composition@.audio_encoders.contains_key(k) ==> k < MAX_AUDIO_MIXES) && in_runtime(
            video_runtime,
            output_runtime,
        ) && all_in_runtime(audio_runtimes@, output_runtime) && in_runtime(service_runtime, output_runtime),
        !active && (forall|k: usize| composition@.audio_encoders.contains_key(k) ==> k < MAX_AUDIO_MIXES)
            && r is Err ==> r == Err::<Vec<usize>, ObsError>(ObsError::RuntimeMismatch),
        r matches Ok(v) ==> v@.no_duplicates() && v@.to_set() == attached@.to_set()
            + composition@.audio_encoders.dom(),
{
    if active {
        return Err(ObsError::OutputAlreadyActive);
    }
    let indices = mixer_update_indices(composition, attached)?;
    match video_runtime {
        Some(rt) => {
            if rt != output_runtime {
                return Err(ObsError::RuntimeMismatch);
            }
        },
        None => {},
    }
    let mut i: usize = 0;
    while i < audio_runtimes.len()
        invariant
            !active,
            forall|k: usize| composition@.audio_encoders.contains_key(k) ==> k < MAX_AUDIO_MIXES,
            i <= audio_runtimes.len(),
            forall|j: int| 0 <= j < i ==> audio_runtimes@[j] == output_runtime,
        decreases audio_runtimes.len() - i,
    {
        if audio_runtimes[i] != output_runtime {
            return Err(ObsError::RuntimeMismatch);
        }
        i = i + 1;
    }
    match service_runtime {
        Some(rt) => {
            if rt != output_runtime {
                return Err(ObsError::RuntimeMismatch);
            }
        },
        None => {},
    }
    Ok(indices)
}

/// `e` is the error for an output that failed to start; the message is libobs' last error,
/// or `Unknown error` where libobs has none.
pub open spec fn is_start_failure(e: ObsError, last_error: Option<String>) -> bool {
    e matches ObsError::OutputStartFailure(Some(m)) && m@ == match last_error {
        Some(t) => t@,
        None => "Unknown error"@,
    }
}

/// What starting an output answers once libobs has tried: success when libobs started it,
/// else the start failure with libobs' last error.
pub fn start_outcome(started: bool, last_error: Option<String>) -> (r: Result<(), ObsError>)
    ensures
        started ==> r is Ok,
        !started ==> r is Err && is_start_failure(r->Err_0, last_error),
{
    if started {
        return Ok(());
    }
    let message = match last_error {
        Some(t) => t,
        None => String::from_str("Unknown error"),
    };
    Err(ObsError::OutputStartFailure(Some(message)))
}

/// `r` is a pause failure (`pausing`) or a stop failure whose message says that the output is not active.
pub open spec fn is_not_active_failure(r: Result<(), ObsError>, pausing: bool) -> bool {
    if pausing {
        r matches Err(ObsError::OutputPauseFailure(Some(m))) && m@ == "Output is not active."@
    } else {
        r matches Err(ObsError::OutputStopFailure(Some(m))) && m@ == "Output is not active."@
    }
}

/// The checks made before an output is paused, resumed (`pausing`) or stopped: the call
/// would block, so it is refused on the runtime's own thread, and the output must be
/// active.
pub fn check_pause_or_stop(on_runtime_thread: bool, active: bool, pausing: bool) -> (r: Result<(), ObsError>)
    ensures
        on_runtime_thread ==> fails_with(r, ObsError::RuntimeReentrantBlocking),
        !on_runtime_thread && !active ==> is_not_active_failure(r, pausing),
        r is Ok <==> !on_runtime_thread && active,
{
    if on_runtime_thread {
        return Err(ObsError::RuntimeReentrantBlocking);
    }
    if !active {
        let m = String::from_str("Output is not active.");
        if pausing {
            return Err(ObsError::OutputPauseFailure(Some(m)));
        } else {
            return Err(ObsError::OutputStopFailure(Some(m)));
        }
    }
    Ok(())
}

/// What pausing or resuming an output answers once libobs has tried: success when libobs
/// did it, else the pause failure with libobs' last error, if it has one.
pub fn pause_outcome(done: bool, last_error: Option<String>) -> (r: Result<(), ObsError>)
    ensures
        done ==> r is Ok,
        !done ==> r == Err::<(), ObsError>(ObsError::OutputPauseFailure(last_error)),
{
    if done {
        Ok(())
    } else {
        Err(ObsError::OutputPauseFailure(last_error))
    }
}

} // verus!
