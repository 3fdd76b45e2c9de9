//! Capability discovery snapshots and compatibility planning.
//!
//! Values here are owned snapshots of what the loaded OBS installation offers: source,
//! output, encoder and service types with their codecs, protocols and flags. Selectors
//! filter and rank them deterministically, and [`ObsCapabilities::best_output_plan`]
//! resolves a complete output/encoder choice for a request, or reports why none exists.
use vstd::prelude::*;
pub use crate::property_kinds::{
    ButtonType, EditableListType, GroupType, ListFormat, ListType, NumberControl, PathType,
    TextInfoType, TextType,
};
use crate::flags::{
    bits_contain, EncoderCapabilities, OutputCapabilities, OBS_ENCODER_CAP_DEPRECATED,
    OBS_ENCODER_CAP_INTERNAL, OBS_ENCODER_CAP_PASS_TEXTURE,
};
use crate::rank::{
    first_ranked, is_rank_order, key_lt, lemma_first_of_rank_order,
    lemma_first_ranked_exists, lemma_ranked_order, rank_order, ranked_before, RankKey,
};
use crate::text::{
    chars_of, contains_lowered, contains_lowered_exec, decimal, eq_ignore_ascii_case,
    push_decimal, push_signed_decimal, signed_decimal, str_eq, str_eq_ignore_ascii_case,
};

verus! {

/// The role a source type plays.
#[derive(Clone, Copy, Debug, PartialEq, Eq, Hash, Structural)]
pub enum SourceKind {
    Input,
    Filter,
    Transition,
    Other,
}

impl SourceKind {
    /// The name of the variant, as `{:?}` prints it.
    pub fn debug_name(&self) -> (r: &'static str)
        ensures
            r@ == source_kind_name(*self),
    {
        match self {
            SourceKind::Input => "Input",
            SourceKind::Filter => "Filter",
            SourceKind::Transition => "Transition",
            SourceKind::Other => "Other",
        }
    }
}

/// The name of a source kind's variant.
pub open spec fn source_kind_name(k: SourceKind) -> Seq<char> {
    match k {
        SourceKind::Input => "Input"@,
        SourceKind::Filter => "Filter"@,
        SourceKind::Transition => "Transition"@,
        SourceKind::Other => "Other"@,
    }
}

/// The media an encoder type produces.
#[derive(Clone, Copy, Debug, PartialEq, Eq, Hash, Structural)]
pub enum EncoderKind {
    Audio,
    Video,
    /// A raw encoder type introduced by a newer libobs than this crate knows about.
    Unknown(i64),
}

impl EncoderKind {
    /// The kind for a raw libobs encoder type (`OBS_ENCODER_AUDIO` is 0, `OBS_ENCODER_VIDEO` is 1).
    pub fn from_raw(raw: i64) -> (r: EncoderKind)
        ensures
            r == encoder_kind_of(raw),
    {
        if raw == 0 {
            EncoderKind::Audio
        } else if raw == 1 {
            EncoderKind::Video
        } else {
            EncoderKind::Unknown(raw)
        }
    }

    /// The kind as `{:?}` prints it, such as `Video` or `Unknown(7)`.
    pub fn debug_name(&self) -> (r: String)
        ensures
            r@ == encoder_kind_name(*self),
    {
        match self {
            EncoderKind::Audio => String::from_str("Audio"),
            EncoderKind::Video => String::from_str("Video"),
            EncoderKind::Unknown(raw) => {
                let mut s = String::from_str("Unknown(");
                push_signed_decimal(&mut s, *raw);
                s.append(")");
                s
            },
        }
    }
}

/// The encoder kind a raw libobs encoder type stands for.
pub open spec fn encoder_kind_of(raw: i64) -> EncoderKind {
    if raw == 0 {
        EncoderKind::Audio
    } else if raw == 1 {
        EncoderKind::Video
    } else {
        EncoderKind::Unknown(raw)
    }
}

/// The text `{:?}` prints for an encoder kind.
pub open spec fn encoder_kind_name(k: EncoderKind) -> Seq<char> {
    match k {
        EncoderKind::Audio => "Audio"@,
        EncoderKind::Video => "Video"@,
        EncoderKind::Unknown(raw) => "Unknown("@ + signed_decimal(raw as int) + ")"@,
    }
}

/// Whether `v` holds a string equal to `s`.
pub open spec fn holds_name(v: Seq<String>, s: Seq<char>) -> bool {
    exists|i: int| 0 <= i < v.len() && (#[trigger] v[i])@ == s
}

/// The role of source type `id` given the input, filter and transition type lists.
pub open spec fn source_kind_for(
    id: Seq<char>,
    inputs: Seq<String>,
    filters: Seq<String>,
    transitions: Seq<String>,
) -> SourceKind {
    if holds_name(inputs, id) {
        SourceKind::Input
    } else if holds_name(filters, id) {
        SourceKind::Filter
    } else if holds_name(transitions, id) {
        SourceKind::Transition
    } else {
        SourceKind::Other
    }
}

pub(crate) fn list_holds(v: &Vec<String>, s: &str) -> (r: bool)
    ensures
        r == holds_name(v@, s@),
{
    let mut i: usize = 0;
    while i < v.len()
        invariant
            i <= v.len(),
            forall|k: int| 0 <= k < i ==> (#[trigger] v@[k])@ != s@,
        decreases v.len() - i,
    {
        if str_eq(v[i].as_str(), s) {
            assert(v@[i as int]@ == s@);
            return true;
        }
        i = i + 1;
    }
    false
}

/// Classifies source type `id`: an input type first, then a filter, then a transition;
/// any other source type is `Other`.
pub fn classify_source_type(
    id: &str,
    inputs: &Vec<String>,
    filters: &Vec<String>,
    transitions: &Vec<String>,
) -> (r: SourceKind)
    ensures
        r == source_kind_for(id@, inputs@, filters@, transitions@),
{
    if list_holds(inputs, id) {
        SourceKind::Input
    } else if list_holds(filters, id) {
        SourceKind::Filter
    } else if list_holds(transitions, id) {
        SourceKind::Transition
    } else {
        SourceKind::Other
    }
}

fn clone_strings(v: &Vec<String>) -> (r: Vec<String>)
    ensures
        r@ == v@,
{
    let mut r: Vec<String> = Vec::new();
    let mut i: usize = 0;
    while i < v.len()
        invariant
            i <= v.len(),
            r@ == v@.subrange(0, i as int),
        decreases v.len() - i,
    {
        r.push(v[i].clone());
        i = i + 1;
        assert(r@ =~= v@.subrange(0, i as int));
    }
    assert(r@ =~= v@);
    r
}

fn clone_opt_string(o: &Option<String>) -> (r: Option<String>)
    ensures
        r == *o,
{
    match o {
        Some(s) => Some(s.clone()),
        None => None,
    }
}

fn opt_as_str(o: &Option<String>) -> (r: Option<&str>)
    ensures
        r is Some <==> o is Some,
        r is Some ==> r->0@ == o->0@,
{
    match o {
        Some(s) => Some(s.as_str()),
        None => None,
    }
}

/// A discovered source type.
#[derive(Debug)]
pub struct SourceTypeInfo {
    id: String,
    display_name: Option<String>,
    kind: SourceKind,
    output_flags: u32,
}

impl SourceTypeInfo {
    pub closed spec fn spec_id(&self) -> String {
        self.id
    }

    pub closed spec fn spec_display_name(&self) -> Option<String> {
        self.display_name
    }

    pub closed spec fn spec_kind(&self) -> SourceKind {
        self.kind
    }

    pub closed spec fn spec_output_flags(&self) -> u32 {
        self.output_flags
    }

    pub fn new(id: String, display_name: Option<String>, kind: SourceKind, output_flags: u32) -> (r: Self)
        ensures
            r.spec_id() == id,
            r.spec_display_name() == display_name,
            r.spec_kind() == kind,
            r.spec_output_flags() == output_flags,
    {
        SourceTypeInfo { id, display_name, kind, output_flags }
    }

    pub fn id(&self) -> (r: &str)
        ensures
            r@ == self.spec_id()@,
    {
        self.id.as_str()
    }

    pub fn display_name(&self) -> (r: Option<&str>)
        ensures
            r is Some <==> self.spec_display_name() is Some,
            r is Some ==> r->0@ == self.spec_display_name()->0@,
    {
        opt_as_str(&self.display_name)
    }

    pub fn kind(&self) -> (r: SourceKind)
        ensures
            r == self.spec_kind(),
    {
        self.kind
    }

    pub fn output_flags(&self) -> (r: u32)
        ensures
            r == self.spec_output_flags(),
    {
        self.output_flags
    }
}

impl Clone for SourceTypeInfo {
    fn clone(&self) -> (r: Self)
        ensures
            r == *self,
    {
        SourceTypeInfo {
            id: self.id.clone(),
            display_name: clone_opt_string(&self.display_name),
            kind: self.kind,
            output_flags: self.output_flags,
        }
    }
}

/// Whether a capability list accepts `requested`: an empty list accepts everything, a
/// non-empty one accepts the names it holds, compared without ASCII case.
pub open spec fn list_supports(values: Seq<String>, requested: Seq<char>) -> bool {
    values.len() == 0 || exists|i: int|
        0 <= i < values.len() && eq_ignore_ascii_case((#[trigger] values[i])@, requested)
}

/// Whether a capability list accepts `requested`.
pub fn capability_list_supports(values: &[String], requested: &str) -> (r: bool)
    ensures
        r == list_supports(values@, requested@),
{
    if values.len() == 0 {
        return true;
    }
    let mut i: usize = 0;
    while i < values.len()
        invariant
            i <= values.len(),
            forall|k: int| 0 <= k < i ==> !eq_ignore_ascii_case((#[trigger] values@[k])@, requested@),
        decreases values.len() - i,
    {
        if str_eq_ignore_ascii_case(values[i].as_str(), requested) {
            return true;
        }
        i = i + 1;
    }
    false
}

/// What an output type descriptor holds.
pub struct OutputTypeModel {
    pub id: String,
    pub display_name: Option<String>,
    pub video_codecs: Seq<String>,
    pub audio_codecs: Seq<String>,
    pub protocols: Seq<String>,
    pub flags: u32,
}

/// A discovered output type with the codecs, protocols and flags libobs declares for it.
#[derive(Debug)]
pub struct OutputTypeInfo {
    id: String,
    display_name: Option<String>,
    video_codecs: Vec<String>,
    audio_codecs: Vec<String>,
    protocols: Vec<String>,
    flags: u32,
}

impl View for OutputTypeInfo {
    type V = OutputTypeModel;

    closed spec fn view(&self) -> OutputTypeModel {
        OutputTypeModel {
            id: self.id,
            display_name: self.display_name,
            video_codecs: self.video_codecs@,
            audio_codecs: self.audio_codecs@,
            protocols: self.protocols@,
            flags: self.flags,
        }
    }
}

impl OutputTypeInfo {
    pub fn new(
        id: String,
        display_name: Option<String>,
        video_codecs: Vec<String>,
        audio_codecs: Vec<String>,
        protocols: Vec<String>,
        flags: u32,
    ) -> (r: Self)
        ensures
            r@.id == id,
            r@.display_name == display_name,
            r@.video_codecs == video_codecs@,
            r@.audio_codecs == audio_codecs@,
            r@.protocols == protocols@,
            r@.flags == flags,
    {
        OutputTypeInfo { id, display_name, video_codecs, audio_codecs, protocols, flags }
    }

    pub fn id(&self) -> (r: &str)
        ensures
            r@ == self@.id@,
    {
        self.id.as_str()
    }

    pub fn display_name(&self) -> (r: Option<&str>)
        ensures
            r is Some <==> self@.display_name is Some,
            r is Some ==> r->0@ == self@.display_name->0@,
    {
        opt_as_str(&self.display_name)
    }

    pub fn video_codecs(&self) -> (r: &[String])
        ensures
            r@ == self@.video_codecs,
    {
        self.video_codecs.as_slice()
    }

    pub fn audio_codecs(&self) -> (r: &[String])
        ensures
            r@ == self@.audio_codecs,
    {
        self.audio_codecs.as_slice()
    }

    pub fn protocols(&self) -> (r: &[String])
        ensures
            r@ == self@.protocols,
    {
        self.protocols.as_slice()
    }

    pub fn flags(&self) -> (r: u32)
        ensures
            r == self@.flags,
    {
        self.flags
    }

    pub fn capability_flags(&self) -> (r: OutputCapabilities)
        ensures
            r@ == self@.flags,
            r == OutputCapabilities::with_bits(self@.flags),
    {
        OutputCapabilities::from_bits_retain(self.flags)
    }

    pub fn supports_video_codec(&self, codec: &str) -> (r: bool)
        ensures
            r == list_supports(self@.video_codecs, codec@),
    {
        capability_list_supports(self.video_codecs.as_slice(), codec)
    }

    pub fn supports_audio_codec(&self, codec: &str) -> (r: bool)
        ensures
            r == list_supports(self@.audio_codecs, codec@),
    {
        capability_list_supports(self.audio_codecs.as_slice(), codec)
    }

    pub fn supports_protocol(&self, protocol: &str) -> (r: bool)
        ensures
            r == list_supports(self@.protocols, protocol@),
    {
        capability_list_supports(self.protocols.as_slice(), protocol)
    }
}

impl Clone for OutputTypeInfo {
    fn clone(&self) -> (r: Self)
        ensures
            r@ == self@,
    {
        OutputTypeInfo {
            id: self.id.clone(),
            display_name: clone_opt_string(&self.display_name),
            video_codecs: clone_strings(&self.video_codecs),
            audio_codecs: clone_strings(&self.audio_codecs),
            protocols: clone_strings(&self.protocols),
            flags: self.flags,
        }
    }
}

/// The encoder type's flags hold the pass-texture capability, or its identifier names a
/// common hardware encoder family (compared without ASCII case).
pub open spec fn encoder_likely_hardware(caps: u32, id: Seq<char>) -> bool {
    bits_contain(caps, OBS_ENCODER_CAP_PASS_TEXTURE) || contains_lowered(id, "nvenc"@)
        || contains_lowered(id, "qsv"@) || contains_lowered(id, "amf"@) || contains_lowered(
        id,
        "vaapi"@,
    ) || contains_lowered(id, "videotoolbox"@)
}

/// A discovered encoder type.
#[derive(Debug)]
pub struct EncoderTypeInfo {
    id: String,
    display_name: Option<String>,
    kind: EncoderKind,
    codec: Option<String>,
    capabilities: u32,
}

impl EncoderTypeInfo {
    pub closed spec fn spec_id(&self) -> String {
        self.id
    }

    pub closed spec fn spec_display_name(&self) -> Option<String> {
        self.display_name
    }

    pub closed spec fn spec_kind(&self) -> EncoderKind {
        self.kind
    }

    pub closed spec fn spec_codec(&self) -> Option<String> {
        self.codec
    }

    pub closed spec fn spec_capabilities(&self) -> u32 {
        self.capabilities
    }

    /// Deprecated encoders carry the deprecated capability bit.
    pub open spec fn spec_deprecated(&self) -> bool {
        bits_contain(self.spec_capabilities(), OBS_ENCODER_CAP_DEPRECATED)
    }

    /// Internal encoders carry the internal capability bit.
    pub open spec fn spec_internal(&self) -> bool {
        bits_contain(self.spec_capabilities(), OBS_ENCODER_CAP_INTERNAL)
    }

    pub open spec fn spec_likely_hardware(&self) -> bool {
        encoder_likely_hardware(self.spec_capabilities(), self.spec_id()@)
    }

    pub fn new(
        id: String,
        display_name: Option<String>,
        kind: EncoderKind,
        codec: Option<String>,
        capabilities: u32,
    ) -> (r: Self)
        ensures
            r.spec_id() == id,
            r.spec_display_name() == display_name,
            r.spec_kind() == kind,
            r.spec_codec() == codec,
            r.spec_capabilities() == capabilities,
    {
        EncoderTypeInfo { id, display_name, kind, codec, capabilities }
    }

    pub fn id(&self) -> (r: &str)
        ensures
            r@ == self.spec_id()@,
    {
        self.id.as_str()
    }

    pub fn display_name(&self) -> (r: Option<&str>)
        ensures
            r is Some <==> self.spec_display_name() is Some,
            r is Some ==> r->0@ == self.spec_display_name()->0@,
    {
        opt_as_str(&self.display_name)
    }

    pub fn kind(&self) -> (r: EncoderKind)
        ensures
            r == self.spec_kind(),
    {
        self.kind
    }

    pub fn codec(&self) -> (r: Option<&str>)
        ensures
            r is Some <==> self.spec_codec() is Some,
            r is Some ==> r->0@ == self.spec_codec()->0@,
    {
        opt_as_str(&self.codec)
    }

    pub fn capabilities(&self) -> (r: u32)
        ensures
            r == self.spec_capabilities(),
    {
        self.capabilities
    }

    pub fn capability_flags(&self) -> (r: EncoderCapabilities)
        ensures
            r@ == self.spec_capabilities(),
    {
        EncoderCapabilities::from_bits_retain(self.capabilities)
    }

    pub fn is_deprecated(&self) -> (r: bool)
        ensures
            r == self.spec_deprecated(),
    {
        self.capability_flags().contains(EncoderCapabilities::deprecated())
    }

    pub fn is_internal(&self) -> (r: bool)
        ensures
            r == self.spec_internal(),
    {
        self.capability_flags().contains(EncoderCapabilities::internal())
    }

    /// Returns whether this encoder is likely hardware-accelerated.
    ///
    /// libobs does not expose one universal hardware bit. Passing textures is a strong
    /// signal for zero-copy hardware encoders; the fallback identifier check covers common
    /// hardware plugins that do not advertise that capability. This is a preference
    /// heuristic only and never excludes software fallbacks.
    pub fn is_likely_hardware_accelerated(&self) -> (r: bool)
        ensures
            r == self.spec_likely_hardware(),
    {
        if self.capability_flags().contains(EncoderCapabilities::pass_texture()) {
            return true;
        }
        let id = chars_of(self.id.as_str());
        contains_lowered_exec(&id, &chars_of("nvenc")) || contains_lowered_exec(&id, &chars_of("qsv"))
            || contains_lowered_exec(&id, &chars_of("amf")) || contains_lowered_exec(
            &id,
            &chars_of("vaapi"),
        ) || contains_lowered_exec(&id, &chars_of("videotoolbox"))
    }
}

impl Clone for EncoderTypeInfo {
    fn clone(&self) -> (r: Self)
        ensures
            r == *self,
    {
        EncoderTypeInfo {
            id: self.id.clone(),
            display_name: clone_opt_string(&self.display_name),
            kind: self.kind,
            codec: clone_opt_string(&self.codec),
            capabilities: self.capabilities,
        }
    }
}

/// A discovered streaming service type.
#[derive(Debug)]
pub struct ServiceTypeInfo {
    id: String,
    display_name: Option<String>,
}

impl ServiceTypeInfo {
    pub closed spec fn spec_id(&self) -> String {
        self.id
    }

    pub closed spec fn spec_display_name(&self) -> Option<String> {
        self.display_name
    }

    pub fn new(id: String, display_name: Option<String>) -> (r: Self)
        ensures
            r.spec_id() == id,
            r.spec_display_name() == display_name,
    {
        ServiceTypeInfo { id, display_name }
    }

    pub fn id(&self) -> (r: &str)
        ensures
            r@ == self.spec_id()@,
    {
        self.id.as_str()
    }

    pub fn display_name(&self) -> (r: Option<&str>)
        ensures
            r is Some <==> self.spec_display_name() is Some,
            r is Some ==> r->0@ == self.spec_display_name()->0@,
    {
        opt_as_str(&self.display_name)
    }
}

impl Clone for ServiceTypeInfo {
    fn clone(&self) -> (r: Self)
        ensures
            r == *self,
    {
        ServiceTypeInfo { id: self.id.clone(), display_name: clone_opt_string(&self.display_name) }
    }
}

/// A loaded OBS module.
#[derive(Clone, Debug, PartialEq, Eq)]
pub struct ModuleInfo {
    pub file_name: Option<String>,
    pub name: Option<String>,
    pub author: Option<String>,
    pub description: Option<String>,
    pub binary_path: Option<String>,
    pub data_path: Option<String>,
}

/// One frame-rate option offered by a frame-rate property.
#[derive(Clone, Debug, PartialEq, Eq)]
pub struct FrameRateOption {
    pub name: Option<String>,
    pub description: Option<String>,
}

/// A frame rate as a fraction.
#[derive(Clone, Copy, Debug, PartialEq, Eq, Structural)]
pub struct FrameRate {
    pub numerator: u32,
    pub denominator: u32,
}

/// An inclusive range of frame rates.
#[derive(Clone, Copy, Debug, PartialEq, Eq, Structural)]
pub struct FrameRateRange {
    pub min: FrameRate,
    pub max: FrameRate,
}

/// The ranking keys of encoders: likely-hardware encoders first when preferred, then
/// by identifier.
pub open spec fn encoder_keys(encs: Seq<EncoderTypeInfo>, prefer_hardware: bool) -> Seq<(bool, Seq<char>)> {
    Seq::new(
        encs.len(),
        |i: int| (prefer_hardware && encs[i].spec_likely_hardware(), encs[i].spec_id()@),
    )
}

/// An encoder's codec is the wanted one (any codec when none is wanted), compared
/// without ASCII case.
pub open spec fn codec_matches(actual: Option<String>, wanted: Option<String>) -> bool {
    match wanted {
        None => true,
        Some(c) => match actual {
            Some(a) => eq_ignore_ascii_case(a@, c@),
            None => false,
        },
    }
}

/// Whether an encoder passes every filter of a selection.
pub open spec fn encoder_selected(
    e: EncoderTypeInfo,
    kind: EncoderKind,
    codec: Option<String>,
    required: u32,
    include_deprecated: bool,
    include_internal: bool,
) -> bool {
    &&& e.spec_kind() == kind
    &&& include_deprecated || !e.spec_deprecated()
    &&& include_internal || !e.spec_internal()
    &&& codec_matches(e.spec_codec(), codec)
    &&& bits_contain(e.spec_capabilities(), required)
}

/// Which encoders pass every filter of a selection.
pub open spec fn encoder_candidates(
    encs: Seq<EncoderTypeInfo>,
    kind: EncoderKind,
    codec: Option<String>,
    required: u32,
    include_deprecated: bool,
    include_internal: bool,
) -> Seq<bool> {
    Seq::new(
        encs.len(),
        |i: int| encoder_selected(encs[i], kind, codec, required, include_deprecated, include_internal),
    )
}

/// Filters and ranks discovered encoder descriptors without creating native objects.
///
/// Candidates have the selector's kind, a matching codec (when one is asked for) and
/// every required capability; deprecated and internal encoders are left out unless
/// included. They are ranked by identifier, likely-hardware encoders first when hardware
/// is preferred; equal identifiers keep their discovery order.
#[derive(Debug)]
pub struct EncoderSelector<'a> {
    encoders: &'a [EncoderTypeInfo],
    kind: EncoderKind,
    codec: Option<String>,
    required_capabilities: EncoderCapabilities,
    include_deprecated: bool,
    include_internal: bool,
    prefer_hardware: bool,
}

impl<'a> EncoderSelector<'a> {
    pub closed spec fn spec_encoders(&self) -> Seq<EncoderTypeInfo> {
        self.encoders@
    }

    pub closed spec fn spec_kind(&self) -> EncoderKind {
        self.kind
    }

    pub closed spec fn spec_codec(&self) -> Option<String> {
        self.codec
    }

    pub closed spec fn spec_required(&self) -> u32 {
        self.required_capabilities@
    }

    pub closed spec fn spec_include_deprecated(&self) -> bool {
        self.include_deprecated
    }

    pub closed spec fn spec_include_internal(&self) -> bool {
        self.include_internal
    }

    pub closed spec fn spec_prefer_hardware(&self) -> bool {
        self.prefer_hardware
    }

    /// The ranking keys of this selection.
    pub open spec fn spec_keys(&self) -> Seq<(bool, Seq<char>)> {
        encoder_keys(self.spec_encoders(), self.spec_prefer_hardware())
    }

    /// Which encoders this selection accepts.
    pub open spec fn spec_candidates(&self) -> Seq<bool> {
        encoder_candidates(
            self.spec_encoders(),
            self.spec_kind(),
            self.spec_codec(),
            self.spec_required(),
            self.spec_include_deprecated(),
            self.spec_include_internal(),
        )
    }

    fn new(encoders: &'a [EncoderTypeInfo], kind: EncoderKind) -> (r: Self)
        ensures
            r.spec_encoders() == encoders@,
            r.spec_kind() == kind,
            r.spec_codec() is None,
            r.spec_required() == 0,
            !r.spec_include_deprecated(),
            !r.spec_include_internal(),
            !r.spec_prefer_hardware(),
    {
        EncoderSelector {
            encoders,
            kind,
            codec: None,
            required_capabilities: EncoderCapabilities::empty(),
            include_deprecated: false,
            include_internal: false,
            prefer_hardware: false,
        }
    }

    fn with_codec_string(self, codec: String) -> (r: Self)
        ensures
            r.spec_codec() == Some(codec),
            r.spec_encoders() == self.spec_encoders(),
            r.spec_kind() == self.spec_kind(),
            r.spec_required() == self.spec_required(),
            r.spec_include_deprecated() == self.spec_include_deprecated(),
            r.spec_include_internal() == self.spec_include_internal(),
            r.spec_prefer_hardware() == self.spec_prefer_hardware(),
    {
        EncoderSelector { codec: Some(codec), ..self }
    }

    /// Keeps only encoders whose codec matches `codec` without ASCII case.
    pub fn codec(self, codec: &str) -> (r: Self)
        ensures
            r.spec_codec() is Some,
            r.spec_codec()->0@ == codec@,
            r.spec_encoders() == self.spec_encoders(),
            r.spec_kind() == self.spec_kind(),
            r.spec_required() == self.spec_required(),
            r.spec_include_deprecated() == self.spec_include_deprecated(),
            r.spec_include_internal() == self.spec_include_internal(),
            r.spec_prefer_hardware() == self.spec_prefer_hardware(),
    {
        self.with_codec_string(codec.to_owned())
    }

    /// Adds capabilities every candidate must have.
    pub fn require_capabilities(self, capabilities: EncoderCapabilities) -> (r: Self)
        ensures
            r.spec_required() == self.spec_required() | capabilities@,
            r.spec_encoders() == self.spec_encoders(),
            r.spec_kind() == self.spec_kind(),
            r.spec_codec() == self.spec_codec(),
            r.spec_include_deprecated() == self.spec_include_deprecated(),
            r.spec_include_internal() == self.spec_include_internal(),
            r.spec_prefer_hardware() == self.spec_prefer_hardware(),
    {
        let required = self.required_capabilities.union(capabilities);
        EncoderSelector { required_capabilities: required, ..self }
    }

    pub fn include_deprecated(self, enabled: bool) -> (r: Self)
        ensures
            r.spec_include_deprecated() == enabled,
            r.spec_encoders() == self.spec_encoders(),
            r.spec_kind() == self.spec_kind(),
            r.spec_codec() == self.spec_codec(),
            r.spec_required() == self.spec_required(),
            r.spec_include_internal() == self.spec_include_internal(),
            r.spec_prefer_hardware() == self.spec_prefer_hardware(),
    {
        EncoderSelector { include_deprecated: enabled, ..self }
    }

    pub fn include_internal(self, enabled: bool) -> (r: Self)
        ensures
            r.spec_include_internal() == enabled,
            r.spec_encoders() == self.spec_encoders(),
            r.spec_kind() == self.spec_kind(),
            r.spec_codec() == self.spec_codec(),
            r.spec_required() == self.spec_required(),
            r.spec_include_deprecated() == self.spec_include_deprecated(),
            r.spec_prefer_hardware() == self.spec_prefer_hardware(),
    {
        EncoderSelector { include_internal: enabled, ..self }
    }

    /// Prefer likely hardware-accelerated encoders while retaining software fallback.
    pub fn prefer_hardware(self) -> (r: Self)
        ensures
            r.spec_prefer_hardware(),
            r.spec_encoders() == self.spec_encoders(),
            r.spec_kind() == self.spec_kind(),
            r.spec_codec() == self.spec_codec(),
            r.spec_required() == self.spec_required(),
            r.spec_include_deprecated() == self.spec_include_deprecated(),
            r.spec_include_internal() == self.spec_include_internal(),
    {
        EncoderSelector { prefer_hardware: true, ..self }
    }

    fn accepts(&self, e: &EncoderTypeInfo) -> (r: bool)
        ensures
            r == encoder_selected(
                *e,
                self.spec_kind(),
                self.spec_codec(),
                self.spec_required(),
                self.spec_include_deprecated(),
                self.spec_include_internal(),
            ),
    {
        if e.kind != self.kind {
            return false;
        }
        if !self.include_deprecated && e.is_deprecated() {
            return false;
        }
        if !self.include_internal && e.is_internal() {
            return false;
        }
        let codec_ok = match &self.codec {
            None => true,
            Some(wanted) => match &e.codec {
                Some(actual) => str_eq_ignore_ascii_case(actual.as_str(), wanted.as_str()),
                None => false,
            },
        };
        codec_ok && e.capability_flags().contains(self.required_capabilities)
    }

    fn ranking(&self) -> (p: Vec<usize>)
        ensures
            is_rank_order(self.spec_keys(), self.spec_candidates(), p@),
    {
        let n = self.encoders.len();
        let mut keys: Vec<RankKey> = Vec::new();
        let mut cand: Vec<bool> = Vec::new();
        for i in 0..n
            invariant
                n == self.encoders@.len(),
                keys.len() == i,
                cand.len() == i,
                keys@.map_values(|k: RankKey| k@) =~= self.spec_keys().subrange(0, i as int),
                cand@ =~= self.spec_candidates().subrange(0, i as int),
        {
            let e = &self.encoders[i];
            let preferred = self.prefer_hardware && e.is_likely_hardware_accelerated();
            keys.push(RankKey { preferred, name: chars_of(e.id.as_str()) });
            cand.push(self.accepts(e));
        }
        assert(keys@.map_values(|k: RankKey| k@) =~= self.spec_keys());
        assert(cand@ =~= self.spec_candidates());
        rank_order(&keys, &cand)
    }

    /// The accepted encoders, best ranked first.
    pub fn matches(&self) -> (r: Vec<&'a EncoderTypeInfo>)
        ensures
            exists|p: Seq<usize>|
                {
                    &&& is_rank_order(self.spec_keys(), self.spec_candidates(), p)
                    &&& r@.len() == p.len()
                    &&& forall|k: int| 0 <= k < p.len() ==> *r@[k] == self.spec_encoders()[p[k] as int]
                },
            forall|k: int|
                #![trigger r@[k]]
                0 <= k < r@.len() ==> {
                    let e = *r@[k];
                    &&& e.spec_kind() == self.spec_kind()
                    &&& e.spec_capabilities() & self.spec_required() == self.spec_required()
                    &&& self.spec_codec() is Some ==> (e.spec_codec() is Some && eq_ignore_ascii_case(
                        e.spec_codec()->0@,
                        self.spec_codec()->0@,
                    ))
                },
    {
        let p = self.ranking();
        let mut out: Vec<&'a EncoderTypeInfo> = Vec::new();
        for k in 0..p.len()
            invariant
                is_rank_order(self.spec_keys(), self.spec_candidates(), p@),
                self.spec_keys().len() == self.encoders@.len(),
                out.len() == k,
                forall|m: int| 0 <= m < k ==> *out@[m] == self.spec_encoders()[p@[m] as int],
        {
            out.push(&self.encoders[p[k]]);
        }
        proof {
            assert forall|k: int| #![trigger out@[k]] 0 <= k < out@.len() implies {
                let e = *out@[k];
                &&& e.spec_kind() == self.spec_kind()
                &&& e.spec_capabilities() & self.spec_required() == self.spec_required()
                &&& self.spec_codec() is Some ==> (e.spec_codec() is Some && eq_ignore_ascii_case(
                    e.spec_codec()->0@,
                    self.spec_codec()->0@,
                ))
            } by {
                let i = p@[k] as int;
                assert(self.spec_candidates()[i]);
                law_encoder_selection_filters(
                    self.spec_encoders()[i],
                    self.spec_kind(),
                    self.spec_codec(),
                    self.spec_required(),
                    self.spec_include_deprecated(),
                    self.spec_include_internal(),
                );
            }
        }
        out
    }

    /// The best ranked accepted encoder, if any encoder is accepted.
    pub fn best_available(&self) -> (r: Option<&'a EncoderTypeInfo>)
        ensures
            match first_ranked(self.spec_keys(), self.spec_candidates()) {
                None => r is None,
                Some(i) => r is Some && *r->0 == self.spec_encoders()[i],
            },
            r matches Some(e) ==> {
                &&& e.spec_kind() == self.spec_kind()
                &&& e.spec_capabilities() & self.spec_required() == self.spec_required()
                &&& self.spec_codec() is Some ==> (e.spec_codec() is Some && eq_ignore_ascii_case(
                    e.spec_codec()->0@,
                    self.spec_codec()->0@,
                ))
            },
    {
        let p = self.ranking();
        proof {
            lemma_first_of_rank_order(self.spec_keys(), self.spec_candidates(), p@);
            if p@.len() > 0 {
                let i = p@[0] as int;
                assert(self.spec_candidates()[i]);
                law_encoder_selection_filters(
                    self.spec_encoders()[i],
                    self.spec_kind(),
                    self.spec_codec(),
                    self.spec_required(),
                    self.spec_include_deprecated(),
                    self.spec_include_internal(),
                );
            }
        }
        if p.len() == 0 {
            None
        } else {
            Some(&self.encoders[p[0]])
        }
    }
}

/// The ranking keys of outputs: by identifier.
pub open spec fn output_keys(outs: Seq<OutputTypeModel>) -> Seq<(bool, Seq<char>)> {
    Seq::new(outs.len(), |i: int| (false, outs[i].id@))
}

/// The views of a sequence of output descriptors.
pub open spec fn output_views(outs: Seq<OutputTypeInfo>) -> Seq<OutputTypeModel> {
    outs.map_values(|o: OutputTypeInfo| o@)
}

/// Whether an output passes every filter of an output selection.
pub open spec fn output_selected(
    o: OutputTypeModel,
    protocol: Option<String>,
    video_codec: Option<String>,
    audio_codec: Option<String>,
    required: u32,
) -> bool {
    &&& protocol is None || list_supports(o.protocols, protocol->0@)
    &&& video_codec is None || list_supports(o.video_codecs, video_codec->0@)
    &&& audio_codec is None || list_supports(o.audio_codecs, audio_codec->0@)
    &&& bits_contain(o.flags, required)
}

/// Filters discovered outputs by their libobs-declared protocols, codecs, and flags, and
/// ranks them by identifier (equal identifiers keep their discovery order).
#[derive(Debug)]
pub struct OutputSelector<'a> {
    outputs: &'a [OutputTypeInfo],
    protocol: Option<String>,
    video_codec: Option<String>,
    audio_codec: Option<String>,
    required_capabilities: OutputCapabilities,
}

impl<'a> OutputSelector<'a> {
    pub closed spec fn spec_outputs(&self) -> Seq<OutputTypeModel> {
        output_views(self.outputs@)
    }

    pub closed spec fn spec_protocol(&self) -> Option<String> {
        self.protocol
    }

    pub closed spec fn spec_video_codec(&self) -> Option<String> {
        self.video_codec
    }

    pub closed spec fn spec_audio_codec(&self) -> Option<String> {
        self.audio_codec
    }

    pub closed spec fn spec_required(&self) -> u32 {
        self.required_capabilities@
    }

    /// Which outputs this selection accepts.
    pub open spec fn spec_candidates(&self) -> Seq<bool> {
        Seq::new(
            self.spec_outputs().len(),
            |i: int|
                output_selected(
                    self.spec_outputs()[i],
                    self.spec_protocol(),
                    self.spec_video_codec(),
                    self.spec_audio_codec(),
                    self.spec_required(),
                ),
        )
    }

    fn new(outputs: &'a [OutputTypeInfo]) -> (r: Self)
        ensures
            r.spec_outputs() == output_views(outputs@),
            r.spec_protocol() is None,
            r.spec_video_codec() is None,
            r.spec_audio_codec() is None,
            r.spec_required() == 0,
    {
        OutputSelector {
            outputs,
            protocol: None,
            video_codec: None,
            audio_codec: None,
            required_capabilities: OutputCapabilities::empty(),
        }
    }

    pub fn protocol(self, protocol: &str) -> (r: Self)
        ensures
            r.spec_protocol() is Some,
            r.spec_protocol()->0@ == protocol@,
            r.spec_outputs() == self.spec_outputs(),
            r.spec_video_codec() == self.spec_video_codec(),
            r.spec_audio_codec() == self.spec_audio_codec(),
            r.spec_required() == self.spec_required(),
    {
        OutputSelector { protocol: Some(protocol.to_owned()), ..self }
    }

    pub fn video_codec(self, codec: &str) -> (r: Self)
        ensures
            r.spec_video_codec() is Some,
            r.spec_video_codec()->0@ == codec@,
            r.spec_outputs() == self.spec_outputs(),
            r.spec_protocol() == self.spec_protocol(),
            r.spec_audio_codec() == self.spec_audio_codec(),
            r.spec_required() == self.spec_required(),
    {
        OutputSelector { video_codec: Some(codec.to_owned()), ..self }
    }

    pub fn audio_codec(self, codec: &str) -> (r: Self)
        ensures
            r.spec_audio_codec() is Some,
            r.spec_audio_codec()->0@ == codec@,
            r.spec_outputs() == self.spec_outputs(),
            r.spec_protocol() == self.spec_protocol(),
            r.spec_video_codec() == self.spec_video_codec(),
            r.spec_required() == self.spec_required(),
    {
        OutputSelector { audio_codec: Some(codec.to_owned()), ..self }
    }

    /// Adds capabilities every candidate must have.
    pub fn require_capabilities(self, capabilities: OutputCapabilities) -> (r: Self)
        ensures
            r.spec_required() == self.spec_required() | capabilities@,
            r.spec_outputs() == self.spec_outputs(),
            r.spec_protocol() == self.spec_protocol(),
            r.spec_video_codec() == self.spec_video_codec(),
            r.spec_audio_codec() == self.spec_audio_codec(),
    {
        let required = self.required_capabilities.union(capabilities);
        OutputSelector { required_capabilities: required, ..self }
    }

    fn accepts(&self, o: &OutputTypeInfo) -> (r: bool)
        ensures
            r == output_selected(
                o@,
                self.spec_protocol(),
                self.spec_video_codec(),
                self.spec_audio_codec(),
                self.spec_required(),
            ),
    {
        let protocol_ok = match &self.protocol {
            None => true,
            Some(p) => o.supports_protocol(p.as_str()),
        };
        let video_ok = match &self.video_codec {
            None => true,
            Some(c) => o.supports_video_codec(c.as_str()),
        };
        let audio_ok = match &self.audio_codec {
            None => true,
            Some(c) => o.supports_audio_codec(c.as_str()),
        };
        protocol_ok && video_ok && audio_ok && o.capability_flags().contains(self.required_capabilities)
    }

    fn ranking(&self) -> (p: Vec<usize>)
        ensures
            is_rank_order(output_keys(self.spec_outputs()), self.spec_candidates(), p@),
    {
        let n = self.outputs.len();
        let mut keys: Vec<RankKey> = Vec::new();
        let mut cand: Vec<bool> = Vec::new();
        for i in 0..n
            invariant
                n == self.outputs@.len(),
                self.spec_outputs() == output_views(self.outputs@),
                keys.len() == i,
                cand.len() == i,
                keys@.map_values(|k: RankKey| k@) =~= output_keys(self.spec_outputs()).subrange(
                    0,
                    i as int,
                ),
                cand@ =~= self.spec_candidates().subrange(0, i as int),
        {
            let o = &self.outputs[i];
            keys.push(RankKey { preferred: false, name: chars_of(o.id.as_str()) });
            cand.push(self.accepts(o));
        }
        assert(keys@.map_values(|k: RankKey| k@) =~= output_keys(self.spec_outputs()));
        assert(cand@ =~= self.spec_candidates());
        rank_order(&keys, &cand)
    }

    /// The accepted outputs, ordered by identifier.
    pub fn matches(&self) -> (r: Vec<&'a OutputTypeInfo>)
        ensures
            exists|p: Seq<usize>|
                {
                    &&& is_rank_order(output_keys(self.spec_outputs()), self.spec_candidates(), p)
                    &&& r@.len() == p.len()
                    &&& forall|k: int| 0 <= k < p.len() ==> (*r@[k])@ == self.spec_outputs()[p[k] as int]
                },
            forall|k: int|
                #![trigger r@[k]]
                0 <= k < r@.len() ==> {
                    let o = (*r@[k])@;
                    &&& o.flags & self.spec_required() == self.spec_required()
                    &&& self.spec_protocol() is Some ==> list_supports(o.protocols, self.spec_protocol()->0@)
                    &&& self.spec_video_codec() is Some ==> list_supports(o.video_codecs, self.spec_video_codec()->0@)
                    &&& self.spec_audio_codec() is Some ==> list_supports(o.audio_codecs, self.spec_audio_codec()->0@)
                },
    {
        let p = self.ranking();
        let mut out: Vec<&'a OutputTypeInfo> = Vec::new();
        for k in 0..p.len()
            invariant
                is_rank_order(output_keys(self.spec_outputs()), self.spec_candidates(), p@),
                self.spec_outputs() == output_views(self.outputs@),
                out.len() == k,
                forall|m: int| 0 <= m < k ==> (*out@[m])@ == self.spec_outputs()[p@[m] as int],
        {
            out.push(&self.outputs[p[k]]);
        }
        proof {
            assert forall|k: int| #![trigger out@[k]] 0 <= k < out@.len() implies {
                let o = (*out@[k])@;
                &&& o.flags & self.spec_required() == self.spec_required()
                &&& self.spec_protocol() is Some ==> list_supports(o.protocols, self.spec_protocol()->0@)
                &&& self.spec_video_codec() is Some ==> list_supports(o.video_codecs, self.spec_video_codec()->0@)
                &&& self.spec_audio_codec() is Some ==> list_supports(o.audio_codecs, self.spec_audio_codec()->0@)
            } by {
                let i = p@[k] as int;
                assert(self.spec_candidates()[i]);
            }
        }
        out
    }

    /// The first accepted output by identifier, if any output is accepted.
    pub fn best_available(&self) -> (r: Option<&'a OutputTypeInfo>)
        ensures
            match first_ranked(output_keys(self.spec_outputs()), self.spec_candidates()) {
                None => r is None,
                Some(i) => r is Some && (*r->0)@ == self.spec_outputs()[i],
            },
            r matches Some(out) ==> {
                let o = (*out)@;
                &&& o.flags & self.spec_required() == self.spec_required()
                &&& self.spec_protocol() is Some ==> list_supports(o.protocols, self.spec_protocol()->0@)
                &&& self.spec_video_codec() is Some ==> list_supports(o.video_codecs, self.spec_video_codec()->0@)
                &&& self.spec_audio_codec() is Some ==> list_supports(o.audio_codecs, self.spec_audio_codec()->0@)
            },
    {
        let p = self.ranking();
        proof {
            lemma_first_of_rank_order(output_keys(self.spec_outputs()), self.spec_candidates(), p@);
            if p@.len() > 0 {
                assert(self.spec_candidates()[p@[0] as int]);
            }
        }
        if p.len() == 0 {
            None
        } else {
            Some(&self.outputs[p[0]])
        }
    }
}

/// What an output compatibility request asks for.
pub struct RequestModel {
    pub output_id: Option<String>,
    pub protocol: Option<String>,
    pub video_codec: Option<String>,
    pub audio_codec: Option<String>,
    pub required_output_capabilities: OutputCapabilities,
    pub prefer_hardware_video: bool,
}

/// Requirements used when resolving an output graph from runtime-discovered capabilities.
#[derive(Clone, Debug)]
pub struct OutputCompatibilityRequest {
    output_id: Option<String>,
    protocol: Option<String>,
    video_codec: Option<String>,
    audio_codec: Option<String>,
    required_output_capabilities: OutputCapabilities,
    prefer_hardware_video: bool,
}

impl View for OutputCompatibilityRequest {
    type V = RequestModel;

    closed spec fn view(&self) -> RequestModel {
        RequestModel {
            output_id: self.output_id,
            protocol: self.protocol,
            video_codec: self.video_codec,
            audio_codec: self.audio_codec,
            required_output_capabilities: self.required_output_capabilities,
            prefer_hardware_video: self.prefer_hardware_video,
        }
    }
}

impl OutputCompatibilityRequest {
    /// A request with no requirement.
    pub fn new() -> (r: Self)
        ensures
            r@.output_id is None,
            r@.protocol is None,
            r@.video_codec is None,
            r@.audio_codec is None,
            r@.required_output_capabilities@ == 0,
            !r@.prefer_hardware_video,
    {
        OutputCompatibilityRequest {
            output_id: None,
            protocol: None,
            video_codec: None,
            audio_codec: None,
            required_output_capabilities: OutputCapabilities::empty(),
            prefer_hardware_video: false,
        }
    }

    /// Restricts matching to one concrete output type while still validating codecs/flags.
    pub fn output_id(self, output_id: &str) -> (r: Self)
        ensures
            r@.output_id is Some,
            r@.output_id->0@ == output_id@,
            r@.protocol == self@.protocol,
            r@.video_codec == self@.video_codec,
            r@.audio_codec == self@.audio_codec,
            r@.required_output_capabilities == self@.required_output_capabilities,
            r@.prefer_hardware_video == self@.prefer_hardware_video,
    {
        OutputCompatibilityRequest { output_id: Some(output_id.to_owned()), ..self }
    }

    pub fn protocol(self, protocol: &str) -> (r: Self)
        ensures
            r@.protocol is Some,
            r@.protocol->0@ == protocol@,
            r@.output_id == self@.output_id,
            r@.video_codec == self@.video_codec,
            r@.audio_codec == self@.audio_codec,
            r@.required_output_capabilities == self@.required_output_capabilities,
            r@.prefer_hardware_video == self@.prefer_hardware_video,
    {
        OutputCompatibilityRequest { protocol: Some(protocol.to_owned()), ..self }
    }

    pub fn video_codec(self, codec: &str) -> (r: Self)
        ensures
            r@.video_codec is Some,
            r@.video_codec->0@ == codec@,
            r@.output_id == self@.output_id,
            r@.protocol == self@.protocol,
            r@.audio_codec == self@.audio_codec,
            r@.required_output_capabilities == self@.required_output_capabilities,
            r@.prefer_hardware_video == self@.prefer_hardware_video,
    {
        OutputCompatibilityRequest { video_codec: Some(codec.to_owned()), ..self }
    }

    pub fn audio_codec(self, codec: &str) -> (r: Self)
        ensures
            r@.audio_codec is Some,
            r@.audio_codec->0@ == codec@,
            r@.output_id == self@.output_id,
            r@.protocol == self@.protocol,
            r@.video_codec == self@.video_codec,
            r@.required_output_capabilities == self@.required_output_capabilities,
            r@.prefer_hardware_video == self@.prefer_hardware_video,
    {
        OutputCompatibilityRequest { audio_codec: Some(codec.to_owned()), ..self }
    }

    /// Adds capabilities the output type must have.
    pub fn require_output_capabilities(self, capabilities: OutputCapabilities) -> (r: Self)
        ensures
            r@.required_output_capabilities@ == self@.required_output_capabilities@ | capabilities@,
            r@.output_id == self@.output_id,
            r@.protocol == self@.protocol,
            r@.video_codec == self@.video_codec,
            r@.audio_codec == self@.audio_codec,
            r@.prefer_hardware_video == self@.prefer_hardware_video,
    {
        let required = self.required_output_capabilities.union(capabilities);
        OutputCompatibilityRequest { required_output_capabilities: required, ..self }
    }

    pub fn prefer_hardware_video(self, prefer: bool) -> (r: Self)
        ensures
            r@.prefer_hardware_video == prefer,
            r@.output_id == self@.output_id,
            r@.protocol == self@.protocol,
            r@.video_codec == self@.video_codec,
            r@.audio_codec == self@.audio_codec,
            r@.required_output_capabilities == self@.required_output_capabilities,
    {
        OutputCompatibilityRequest { prefer_hardware_video: prefer, ..self }
    }
}

impl Default for OutputCompatibilityRequest {
    fn default() -> (r: Self)
        ensures
            r@.output_id is None,
            r@.protocol is None,
            r@.video_codec is None,
            r@.audio_codec is None,
            r@.required_output_capabilities@ == 0,
            !r@.prefer_hardware_video,
    {
        Self::new()
    }
}

/// Why one output type cannot serve a request.
#[allow(inconsistent_fields)]
#[derive(Clone, Debug, PartialEq, Eq)]
pub enum OutputRejectionReason {
    OutputId { required: String },
    MissingCapabilities { required: OutputCapabilities, actual: OutputCapabilities },
    Protocol { required: String },
    VideoCodec { required: String },
    AudioCodec { required: String },
}

/// What a compatibility issue says.
pub enum IssueModel {
    NoVideoEncoder { codec: String },
    NoAudioEncoder { codec: String },
    OutputRejected { output_id: String, reasons: Seq<OutputRejectionReason> },
    NoCompatibleOutput,
}

/// One reason why a request could not be served.
#[derive(Clone, Debug, PartialEq, Eq)]
pub enum CompatibilityIssue {
    NoVideoEncoder { codec: String },
    NoAudioEncoder { codec: String },
    OutputRejected { output_id: String, reasons: Vec<OutputRejectionReason> },
    NoCompatibleOutput,
}

impl View for CompatibilityIssue {
    type V = IssueModel;

    open spec fn view(&self) -> IssueModel {
        match self {
            CompatibilityIssue::NoVideoEncoder { codec } => IssueModel::NoVideoEncoder { codec: *codec },
            CompatibilityIssue::NoAudioEncoder { codec } => IssueModel::NoAudioEncoder { codec: *codec },
            CompatibilityIssue::OutputRejected { output_id, reasons } => IssueModel::OutputRejected {
                output_id: *output_id,
                reasons: reasons@,
            },
            CompatibilityIssue::NoCompatibleOutput => IssueModel::NoCompatibleOutput,
        }
    }
}

/// The views of a sequence of issues.
pub open spec fn issue_views(issues: Seq<CompatibilityIssue>) -> Seq<IssueModel> {
    issues.map_values(|i: CompatibilityIssue| i@)
}

/// Structured diagnostics for a request that no output graph can serve.
#[derive(Clone, Debug, PartialEq, Eq)]
pub struct OutputCompatibilityReport {
    issues: Vec<CompatibilityIssue>,
}

impl View for OutputCompatibilityReport {
    type V = Seq<IssueModel>;

    closed spec fn view(&self) -> Seq<IssueModel> {
        issue_views(self.issues@)
    }
}

/// The issue is about a missing encoder.
pub open spec fn is_encoder_issue(i: IssueModel) -> bool {
    i is NoVideoEncoder || i is NoAudioEncoder
}

/// How many issues satisfy `is_encoder_issue`.
pub open spec fn count_encoder_issues(s: Seq<IssueModel>) -> nat
    decreases s.len(),
{
    if s.len() == 0 {
        0
    } else {
        count_encoder_issues(s.drop_last()) + if is_encoder_issue(s.last()) {
            1nat
        } else {
            0nat
        }
    }
}

/// How many issues reject an output type.
pub open spec fn count_rejected_outputs(s: Seq<IssueModel>) -> nat
    decreases s.len(),
{
    if s.len() == 0 {
        0
    } else {
        count_rejected_outputs(s.drop_last()) + if s.last() is OutputRejected {
            1nat
        } else {
            0nat
        }
    }
}

/// The one-line summary of a report.
pub open spec fn report_summary(s: Seq<IssueModel>) -> Seq<char> {
    "no compatible OBS output graph: "@ + decimal(count_encoder_issues(s))
        + " encoder requirement(s) unavailable, "@ + decimal(count_rejected_outputs(s))
        + " output type(s) rejected"@
}

impl OutputCompatibilityReport {
    pub fn issues(&self) -> (r: &[CompatibilityIssue])
        ensures
            issue_views(r@) == self@,
    {
        self.issues.as_slice()
    }

    /// A one-line summary: how many encoder requirements are unavailable and how many
    /// output types were rejected.
    pub fn summary(&self) -> (r: String)
        ensures
            r@ == report_summary(self@),
    {
        let ghost v = self@;
        let mut encoders: usize = 0;
        let mut rejected: usize = 0;
        let mut i: usize = 0;
        while i < self.issues.len()
            invariant
                v == issue_views(self.issues@),
                i <= self.issues.len(),
                encoders == count_encoder_issues(v.take(i as int)),
                rejected == count_rejected_outputs(v.take(i as int)),
                encoders <= i,
                rejected <= i,
            decreases self.issues.len() - i,
        {
            assert(v.take(i + 1).drop_last() =~= v.take(i as int));
            match &self.issues[i] {
                CompatibilityIssue::NoVideoEncoder { .. } | CompatibilityIssue::NoAudioEncoder {
                    ..
                } => {
                    encoders = encoders + 1;
                },
                CompatibilityIssue::OutputRejected { .. } => {
                    rejected = rejected + 1;
                },
                CompatibilityIssue::NoCompatibleOutput => {},
            }
            i = i + 1;
        }
        assert(v.take(i as int) =~= v);
        let mut out = String::from_str("no compatible OBS output graph: ");
        push_decimal(&mut out, encoders as u64);
        out.append(" encoder requirement(s) unavailable, ");
        push_decimal(&mut out, rejected as u64);
        out.append(" output type(s) rejected");
        out
    }
}

/// What a compatibility plan holds.
pub struct PlanModel {
    pub output: OutputTypeModel,
    pub video_encoder: Option<EncoderTypeInfo>,
    pub audio_encoder: Option<EncoderTypeInfo>,
    pub protocol: Option<String>,
}

/// A concrete compatible choice of output and encoders from one capability snapshot.
#[derive(Clone, Debug)]
pub struct OutputCompatibilityPlan {
    output: OutputTypeInfo,
    video_encoder: Option<EncoderTypeInfo>,
    audio_encoder: Option<EncoderTypeInfo>,
    protocol: Option<String>,
}

impl View for OutputCompatibilityPlan {
    type V = PlanModel;

    closed spec fn view(&self) -> PlanModel {
        PlanModel {
            output: self.output@,
            video_encoder: self.video_encoder,
            audio_encoder: self.audio_encoder,
            protocol: self.protocol,
        }
    }
}

impl OutputCompatibilityPlan {
    pub fn output(&self) -> (r: &OutputTypeInfo)
        ensures
            r@ == self@.output,
    {
        &self.output
    }

    pub fn video_encoder(&self) -> (r: Option<&EncoderTypeInfo>)
        ensures
            r is Some <==> self@.video_encoder is Some,
            r is Some ==> *r->0 == self@.video_encoder->0,
    {
        match &self.video_encoder {
            Some(e) => Some(e),
            None => None,
        }
    }

    pub fn audio_encoder(&self) -> (r: Option<&EncoderTypeInfo>)
        ensures
            r is Some <==> self@.audio_encoder is Some,
            r is Some ==> *r->0 == self@.audio_encoder->0,
    {
        match &self.audio_encoder {
            Some(e) => Some(e),
            None => None,
        }
    }

    pub fn protocol(&self) -> (r: Option<&str>)
        ensures
            r is Some <==> self@.protocol is Some,
            r is Some ==> r->0@ == self@.protocol->0@,
    {
        opt_as_str(&self.protocol)
    }
}

/// Why output type `o` cannot serve request `q`, in the order the checks are made: a
/// different identifier, missing capabilities, then an unsupported protocol, video codec
/// or audio codec. An empty sequence means the output type is compatible.
pub open spec fn rejection_reasons(o: OutputTypeModel, q: RequestModel) -> Seq<OutputRejectionReason> {
    let id_part: Seq<OutputRejectionReason> = match q.output_id {
        Some(rid) => if o.id@ != rid@ {
            seq![OutputRejectionReason::OutputId { required: rid }]
        } else {
            seq![]
        },
        None => seq![],
    };
    let caps_part: Seq<OutputRejectionReason> = if !bits_contain(
        o.flags,
        q.required_output_capabilities@,
    ) {
        seq![
            OutputRejectionReason::MissingCapabilities {
                required: q.required_output_capabilities,
                actual: OutputCapabilities::with_bits(o.flags),
            },
        ]
    } else {
        seq![]
    };
    let protocol_part: Seq<OutputRejectionReason> = match q.protocol {
        Some(p) => if !list_supports(o.protocols, p@) {
            seq![OutputRejectionReason::Protocol { required: p }]
        } else {
            seq![]
        },
        None => seq![],
    };
    let video_part: Seq<OutputRejectionReason> = match q.video_codec {
        Some(c) => if !list_supports(o.video_codecs, c@) {
            seq![OutputRejectionReason::VideoCodec { required: c }]
        } else {
            seq![]
        },
        None => seq![],
    };
    let audio_part: Seq<OutputRejectionReason> = match q.audio_codec {
        Some(c) => if !list_supports(o.audio_codecs, c@) {
            seq![OutputRejectionReason::AudioCodec { required: c }]
        } else {
            seq![]
        },
        None => seq![],
    };
    id_part + caps_part + protocol_part + video_part + audio_part
}

/// One rejection issue per incompatible output type, in discovery order.
pub open spec fn rejection_issues(outs: Seq<OutputTypeModel>, q: RequestModel) -> Seq<IssueModel>
    decreases outs.len(),
{
    if outs.len() == 0 {
        seq![]
    } else {
        let before = rejection_issues(outs.drop_last(), q);
        let reasons = rejection_reasons(outs.last(), q);
        if reasons.len() > 0 {
            before.push(IssueModel::OutputRejected { output_id: outs.last().id, reasons })
        } else {
            before
        }
    }
}

/// Which output types are compatible with the request.
pub open spec fn compatible_outputs(outs: Seq<OutputTypeModel>, q: RequestModel) -> Seq<bool> {
    Seq::new(outs.len(), |i: int| rejection_reasons(outs[i], q).len() == 0)
}

/// The encoder chosen for a codec: the best ranked non-deprecated, non-internal encoder of
/// the kind whose codec matches.
pub open spec fn chosen_encoder(
    encs: Seq<EncoderTypeInfo>,
    kind: EncoderKind,
    codec: Option<String>,
    prefer_hardware: bool,
) -> Option<EncoderTypeInfo> {
    match codec {
        None => None,
        Some(c) => match first_ranked(
            encoder_keys(encs, prefer_hardware),
            encoder_candidates(encs, kind, Some(c), 0, false, false),
        ) {
            Some(i) => Some(encs[i]),
            None => None,
        },
    }
}

/// The issues about requested codecs that no encoder provides.
pub open spec fn encoder_issues(
    q: RequestModel,
    video: Option<EncoderTypeInfo>,
    audio: Option<EncoderTypeInfo>,
) -> Seq<IssueModel> {
    let v: Seq<IssueModel> = if q.video_codec is Some && video is None {
        seq![IssueModel::NoVideoEncoder { codec: q.video_codec->0 }]
    } else {
        seq![]
    };
    let a: Seq<IssueModel> = if q.audio_codec is Some && audio is None {
        seq![IssueModel::NoAudioEncoder { codec: q.audio_codec->0 }]
    } else {
        seq![]
    };
    v + a
}

/// The plan for request `q` over discovered encoders and outputs, or the issues that
/// prevent one.
///
/// The video and audio encoders are chosen for the requested codecs; the output is the
/// compatible output type that comes first by identifier. A plan exists when there is such
/// an output and every requested codec has an encoder. Otherwise the issues list the
/// missing encoders, then every rejected output type with its reasons, then the absence of
/// a compatible output when there is none.
pub open spec fn planned(
    encs: Seq<EncoderTypeInfo>,
    outs: Seq<OutputTypeModel>,
    q: RequestModel,
) -> Result<PlanModel, Seq<IssueModel>> {
    let video = chosen_encoder(encs, EncoderKind::Video, q.video_codec, q.prefer_hardware_video);
    let audio = chosen_encoder(encs, EncoderKind::Audio, q.audio_codec, false);
    let out = first_ranked(output_keys(outs), compatible_outputs(outs, q));
    let missing_video = q.video_codec is Some && video is None;
    let missing_audio = q.audio_codec is Some && audio is None;
    if out is Some && !missing_video && !missing_audio {
        Ok(PlanModel { output: outs[out->0], video_encoder: video, audio_encoder: audio, protocol: q.protocol })
    } else {
        Err(
            encoder_issues(q, video, audio) + rejection_issues(outs, q) + if out is None {
                seq![IssueModel::NoCompatibleOutput]
            } else {
                seq![]
            },
        )
    }
}

/// The views of a planning result.
pub open spec fn plan_result_view(r: Result<OutputCompatibilityPlan, OutputCompatibilityReport>) -> Result<PlanModel, Seq<IssueModel>> {
    match r {
        Ok(p) => Ok(p@),
        Err(e) => Err(e@),
    }
}

fn rejection_reasons_exec(o: &OutputTypeInfo, q: &OutputCompatibilityRequest) -> (r: Vec<OutputRejectionReason>)
    ensures
        r@ == rejection_reasons(o@, q@),
{
    let mut r: Vec<OutputRejectionReason> = Vec::new();
    let ghost model = o@;
    let ghost req = q@;
    if let Some(required_id) = &q.output_id {
        if !str_eq(o.id.as_str(), required_id.as_str()) {
            r.push(OutputRejectionReason::OutputId { required: required_id.clone() });
        }
    }
    let flags = o.capability_flags();
    if !flags.contains(q.required_output_capabilities) {
        r.push(
            OutputRejectionReason::MissingCapabilities {
                required: q.required_output_capabilities,
                actual: flags,
            },
        );
    }
    let ghost after_caps = r@;
    if let Some(protocol) = &q.protocol {
        if !o.supports_protocol(protocol.as_str()) {
            r.push(OutputRejectionReason::Protocol { required: protocol.clone() });
        }
    }
    let ghost after_protocol = r@;
    if let Some(codec) = &q.video_codec {
        if !o.supports_video_codec(codec.as_str()) {
            r.push(OutputRejectionReason::VideoCodec { required: codec.clone() });
        }
    }
    let ghost after_video = r@;
    if let Some(codec) = &q.audio_codec {
        if !o.supports_audio_codec(codec.as_str()) {
            r.push(OutputRejectionReason::AudioCodec { required: codec.clone() });
        }
    }
    assert(r@ =~= rejection_reasons(model, req));
    r
}

/// An owned snapshot of everything the loaded OBS installation offers.
#[derive(Clone, Debug)]
pub struct ObsCapabilities {
    source_types: Vec<SourceTypeInfo>,
    input_types: Vec<SourceTypeInfo>,
    filter_types: Vec<SourceTypeInfo>,
    transition_types: Vec<SourceTypeInfo>,
    outputs: Vec<OutputTypeInfo>,
    encoders: Vec<EncoderTypeInfo>,
    services: Vec<ServiceTypeInfo>,
    protocols: Vec<String>,
    modules: Vec<ModuleInfo>,
}

impl ObsCapabilities {
    pub closed spec fn spec_source_types(&self) -> Seq<SourceTypeInfo> {
        self.source_types@
    }

    pub closed spec fn spec_input_types(&self) -> Seq<SourceTypeInfo> {
        self.input_types@
    }

    pub closed spec fn spec_filter_types(&self) -> Seq<SourceTypeInfo> {
        self.filter_types@
    }

    pub closed spec fn spec_transition_types(&self) -> Seq<SourceTypeInfo> {
        self.transition_types@
    }

    pub closed spec fn spec_outputs(&self) -> Seq<OutputTypeModel> {
        output_views(self.outputs@)
    }

    pub closed spec fn spec_encoders(&self) -> Seq<EncoderTypeInfo> {
        self.encoders@
    }

    pub closed spec fn spec_services(&self) -> Seq<ServiceTypeInfo> {
        self.services@
    }

    pub closed spec fn spec_protocols(&self) -> Seq<String> {
        self.protocols@
    }

    pub closed spec fn spec_modules(&self) -> Seq<ModuleInfo> {
        self.modules@
    }

    pub fn new(
        source_types: Vec<SourceTypeInfo>,
        input_types: Vec<SourceTypeInfo>,
        filter_types: Vec<SourceTypeInfo>,
        transition_types: Vec<SourceTypeInfo>,
        outputs: Vec<OutputTypeInfo>,
        encoders: Vec<EncoderTypeInfo>,
        services: Vec<ServiceTypeInfo>,
        protocols: Vec<String>,
        modules: Vec<ModuleInfo>,
    ) -> (r: Self)
        ensures
            r.spec_source_types() == source_types@,
            r.spec_input_types() == input_types@,
            r.spec_filter_types() == filter_types@,
            r.spec_transition_types() == transition_types@,
            r.spec_outputs() == output_views(outputs@),
            r.spec_encoders() == encoders@,
            r.spec_services() == services@,
            r.spec_protocols() == protocols@,
            r.spec_modules() == modules@,
    {
        ObsCapabilities {
            source_types,
            input_types,
            filter_types,
            transition_types,
            outputs,
            encoders,
            services,
            protocols,
            modules,
        }
    }

    pub fn source_types(&self) -> (r: &[SourceTypeInfo])
        ensures
            r@ == self.spec_source_types(),
    {
        self.source_types.as_slice()
    }

    pub fn input_types(&self) -> (r: &[SourceTypeInfo])
        ensures
            r@ == self.spec_input_types(),
    {
        self.input_types.as_slice()
    }

    pub fn filter_types(&self) -> (r: &[SourceTypeInfo])
        ensures
            r@ == self.spec_filter_types(),
    {
        self.filter_types.as_slice()
    }

    pub fn transition_types(&self) -> (r: &[SourceTypeInfo])
        ensures
            r@ == self.spec_transition_types(),
    {
        self.transition_types.as_slice()
    }

    pub fn outputs(&self) -> (r: &[OutputTypeInfo])
        ensures
            output_views(r@) == self.spec_outputs(),
    {
        self.outputs.as_slice()
    }

    pub fn encoders(&self) -> (r: &[EncoderTypeInfo])
        ensures
            r@ == self.spec_encoders(),
    {
        self.encoders.as_slice()
    }

    pub fn services(&self) -> (r: &[ServiceTypeInfo])
        ensures
            r@ == self.spec_services(),
    {
        self.services.as_slice()
    }

    pub fn protocols(&self) -> (r: &[String])
        ensures
            r@ == self.spec_protocols(),
    {
        self.protocols.as_slice()
    }

    pub fn modules(&self) -> (r: &[ModuleInfo])
        ensures
            r@ == self.spec_modules(),
    {
        self.modules.as_slice()
    }

    /// Starts a deterministic selection over discovered video encoders.
    pub fn select_video_encoder(&self) -> (r: EncoderSelector<'_>)
        ensures
            r.spec_encoders() == self.spec_encoders(),
            r.spec_kind() == EncoderKind::Video,
            r.spec_codec() is None,
            r.spec_required() == 0,
            !r.spec_include_deprecated(),
            !r.spec_include_internal(),
            !r.spec_prefer_hardware(),
    {
        EncoderSelector::new(self.encoders.as_slice(), EncoderKind::Video)
    }

    /// Starts a deterministic selection over discovered audio encoders.
    pub fn select_audio_encoder(&self) -> (r: EncoderSelector<'_>)
        ensures
            r.spec_encoders() == self.spec_encoders(),
            r.spec_kind() == EncoderKind::Audio,
            r.spec_codec() is None,
            r.spec_required() == 0,
            !r.spec_include_deprecated(),
            !r.spec_include_internal(),
            !r.spec_prefer_hardware(),
    {
        EncoderSelector::new(self.encoders.as_slice(), EncoderKind::Audio)
    }

    /// Starts a deterministic selection over discovered outputs.
    pub fn select_output(&self) -> (r: OutputSelector<'_>)
        ensures
            r.spec_outputs() == self.spec_outputs(),
            r.spec_protocol() is None,
            r.spec_video_codec() is None,
            r.spec_audio_codec() is None,
            r.spec_required() == 0,
    {
        OutputSelector::new(self.outputs.as_slice())
    }

    fn choose_encoder(&self, kind: EncoderKind, codec: &Option<String>, prefer_hardware: bool) -> (r: Option<EncoderTypeInfo>)
        ensures
            r == chosen_encoder(self.spec_encoders(), kind, *codec, prefer_hardware),
    {
        match codec {
            None => None,
            Some(c) => {
                let selector = EncoderSelector::new(self.encoders.as_slice(), kind).with_codec_string(c.clone());
                let selector = if prefer_hardware {
                    selector.prefer_hardware()
                } else {
                    selector
                };
                proof {
                    lemma_contains_nothing_required(self.spec_encoders(), kind, *codec);
                }
                match selector.best_available() {
                    Some(e) => Some(e.clone()),
                    None => None,
                }
            },
        }
    }

    /// Resolves the best currently available output/encoder combination for a request.
    /// The operation is pure over this owned snapshot and never creates native objects.
    #[verifier::spinoff_prover]
    #[verifier::rlimit(40)]
    pub fn best_output_plan(&self, request: &OutputCompatibilityRequest) -> (r: Result<
        OutputCompatibilityPlan,
        OutputCompatibilityReport,
    >)
        ensures
            plan_result_view(r) == planned(self.spec_encoders(), self.spec_outputs(), request@),
    {
        let ghost q = request@;
        let ghost outs = self.spec_outputs();
        let video_encoder = self.choose_encoder(
            EncoderKind::Video,
            &request.video_codec,
            request.prefer_hardware_video,
        );
        let audio_encoder = self.choose_encoder(EncoderKind::Audio, &request.audio_codec, false);

        let mut issues: Vec<CompatibilityIssue> = Vec::new();
        if let Some(codec) = &request.video_codec {
            if video_encoder.is_none() {
                issues.push(CompatibilityIssue::NoVideoEncoder { codec: codec.clone() });
            }
        }
        if let Some(codec) = &request.audio_codec {
            if audio_encoder.is_none() {
                issues.push(CompatibilityIssue::NoAudioEncoder { codec: codec.clone() });
            }
        }
        let ghost enc_issues = encoder_issues(q, video_encoder, audio_encoder);
        assert(issue_views(issues@) =~= enc_issues);

        let n = self.outputs.len();
        let mut keys: Vec<RankKey> = Vec::new();
        let mut compatible: Vec<bool> = Vec::new();
        for i in 0..n
            invariant
                n == self.outputs@.len(),
                outs == output_views(self.outputs@),
                q == request@,
                keys.len() == i,
                compatible.len() == i,
                keys@.map_values(|k: RankKey| k@) =~= output_keys(outs).subrange(0, i as int),
                compatible@ =~= compatible_outputs(outs, q).subrange(0, i as int),
                issue_views(issues@) =~= enc_issues + rejection_issues(outs.take(i as int), q),
        {
            let output = &self.outputs[i];
            let reasons = rejection_reasons_exec(output, request);
            keys.push(RankKey { preferred: false, name: chars_of(output.id.as_str()) });
            assert(outs.take(i + 1).drop_last() =~= outs.take(i as int));
            assert(outs.take(i + 1).last() == outs[i as int]);
            if reasons.len() == 0 {
                compatible.push(true);
            } else {
                compatible.push(false);
                let ghost before = issues@;
                issues.push(
                    CompatibilityIssue::OutputRejected { output_id: output.id.clone(), reasons },
                );
                assert(issue_views(issues@) =~= issue_views(before).push(issues@.last()@));
            }
        }
        assert(outs.take(n as int) =~= outs);
        assert(keys@.map_values(|k: RankKey| k@) =~= output_keys(outs));
        assert(compatible@ =~= compatible_outputs(outs, q));
        let order = rank_order(&keys, &compatible);
        proof {
            lemma_first_of_rank_order(output_keys(outs), compatible_outputs(outs, q), order@);
        }
        let ghost rejected = enc_issues + rejection_issues(outs, q);
        assert(issue_views(issues@) == rejected);
        let output = if order.len() == 0 {
            issues.push(CompatibilityIssue::NoCompatibleOutput);
            assert(issue_views(issues@) =~= rejected + seq![IssueModel::NoCompatibleOutput]);
            None
        } else {
            assert(issue_views(issues@) =~= rejected + Seq::<IssueModel>::empty());
            Some(self.outputs[order[0]].clone())
        };

        let video_missing = request.video_codec.is_some() && video_encoder.is_none();
        let audio_missing = request.audio_codec.is_some() && audio_encoder.is_none();
        match output {
            Some(output) => {
                if !video_missing && !audio_missing {
                    return Ok(
                        OutputCompatibilityPlan {
                            output,
                            video_encoder,
                            audio_encoder,
                            protocol: clone_opt_string(&request.protocol),
                        },
                    );
                }
            },
            None => {},
        }
        Err(OutputCompatibilityReport { issues })
    }
}

/// Requiring no capability filters nothing out.
proof fn lemma_contains_nothing_required(encs: Seq<EncoderTypeInfo>, kind: EncoderKind, codec: Option<String>)
    ensures
        forall|i: int| 0 <= i < encs.len() ==> bits_contain(#[trigger] encs[i].spec_capabilities(), 0),
{
    assert forall|i: int| 0 <= i < encs.len() implies bits_contain(#[trigger] encs[i].spec_capabilities(), 0) by {
        crate::flags::lemma_contains_basics(encs[i].spec_capabilities(), 0);
    }
}

/// A plan only ever names a compatible graph: its output type has the requested
/// identifier, capabilities, protocol and codecs, each requested codec has an encoder of
/// the right kind for that codec that is neither deprecated nor internal, and the plan
/// keeps the requested protocol.
#[verifier::spinoff_prover]
#[verifier::rlimit(40)]
pub proof fn law_plan_is_compatible(encs: Seq<EncoderTypeInfo>, outs: Seq<OutputTypeModel>, q: RequestModel)
    requires
        planned(encs, outs, q) is Ok,
    ensures
        ({
            let p = planned(encs, outs, q)->Ok_0;
            &&& rejection_reasons(p.output, q).len() == 0
            &&& bits_contain(p.output.flags, q.required_output_capabilities@)
            &&& q.output_id is Some ==> p.output.id@ == q.output_id->0@
            &&& q.protocol is Some ==> list_supports(p.output.protocols, q.protocol->0@)
            &&& q.video_codec is Some ==> {
                &&& list_supports(p.output.video_codecs, q.video_codec->0@)
                &&& p.video_encoder is Some
                &&& encoder_selected(p.video_encoder->0, EncoderKind::Video, q.video_codec, 0, false, false)
            }
            &&& q.audio_codec is Some ==> {
                &&& list_supports(p.output.audio_codecs, q.audio_codec->0@)
                &&& p.audio_encoder is Some
                &&& encoder_selected(p.audio_encoder->0, EncoderKind::Audio, q.audio_codec, 0, false, false)
            }
            &&& p.protocol == q.protocol
        }),
{
    let keys = output_keys(outs);
    let compat = compatible_outputs(outs, q);
    lemma_first_ranked_exists(keys, compat);
    let i = first_ranked(keys, compat)->0;
    assert(compat[i]);
    let reasons = rejection_reasons(outs[i], q);
    assert(reasons.len() == 0);
    if q.video_codec is Some {
        let vkeys = encoder_keys(encs, q.prefer_hardware_video);
        let vcand = encoder_candidates(encs, EncoderKind::Video, q.video_codec, 0, false, false);
        lemma_first_ranked_exists(vkeys, vcand);
        assert(vcand[first_ranked(vkeys, vcand)->0]);
    }
    if q.audio_codec is Some {
        let akeys = encoder_keys(encs, false);
        let acand = encoder_candidates(encs, EncoderKind::Audio, q.audio_codec, 0, false, false);
        lemma_first_ranked_exists(akeys, acand);
        assert(acand[first_ranked(akeys, acand)->0]);
    }
}

/// A requested video codec that no usable encoder provides is reported by name, and no
/// plan is made.
pub proof fn law_missing_video_codec_is_reported(
    encs: Seq<EncoderTypeInfo>,
    outs: Seq<OutputTypeModel>,
    q: RequestModel,
)
    requires
        q.video_codec is Some,
        forall|i: int|
            0 <= i < encs.len() ==> !encoder_selected(
                #[trigger] encs[i],
                EncoderKind::Video,
                q.video_codec,
                0,
                false,
                false,
            ),
    ensures
        planned(encs, outs, q) is Err,
        planned(encs, outs, q)->Err_0.len() > 0,
        planned(encs, outs, q)->Err_0[0] == (IssueModel::NoVideoEncoder { codec: q.video_codec->0 }),
{
    let vkeys = encoder_keys(encs, q.prefer_hardware_video);
    let vcand = encoder_candidates(encs, EncoderKind::Video, q.video_codec, 0, false, false);
    lemma_first_ranked_exists(vkeys, vcand);
    let audio = chosen_encoder(encs, EncoderKind::Audio, q.audio_codec, false);
    let issues = planned(encs, outs, q)->Err_0;
    let head = encoder_issues(q, None, audio);
    assert(head[0] == (IssueModel::NoVideoEncoder { codec: q.video_codec->0 }));
}

/// Preferring hardware never leaves a codec without an encoder: whenever some encoder
/// qualifies for the codec, one is chosen, and when a likely-hardware encoder qualifies
/// and hardware is preferred, the chosen one is likely hardware too.
pub proof fn law_hardware_preference_keeps_fallback(
    encs: Seq<EncoderTypeInfo>,
    kind: EncoderKind,
    codec: String,
    prefer_hardware: bool,
)
    ensures
        (exists|i: int|
            0 <= i < encs.len() && encoder_selected(#[trigger] encs[i], kind, Some(codec), 0, false, false))
            ==> chosen_encoder(encs, kind, Some(codec), prefer_hardware) is Some,
        (prefer_hardware && exists|i: int|
            0 <= i < encs.len() && encoder_selected(#[trigger] encs[i], kind, Some(codec), 0, false, false)
                && encs[i].spec_likely_hardware()) ==> chosen_encoder(
            encs,
            kind,
            Some(codec),
            prefer_hardware,
        )->0.spec_likely_hardware(),
{
    let keys = encoder_keys(encs, prefer_hardware);
    let cand = encoder_candidates(encs, kind, Some(codec), 0, false, false);
    lemma_first_ranked_exists(keys, cand);
    if exists|i: int|
        0 <= i < encs.len() && encoder_selected(#[trigger] encs[i], kind, Some(codec), 0, false, false)
    {
        let w = choose|i: int|
            0 <= i < encs.len() && encoder_selected(#[trigger] encs[i], kind, Some(codec), 0, false, false);
        assert(cand[w]);
    }
    if prefer_hardware && exists|i: int|
        0 <= i < encs.len() && encoder_selected(#[trigger] encs[i], kind, Some(codec), 0, false, false)
            && encs[i].spec_likely_hardware()
    {
        let h = choose|i: int|
            0 <= i < encs.len() && encoder_selected(#[trigger] encs[i], kind, Some(codec), 0, false, false)
                && encs[i].spec_likely_hardware();
        assert(cand[h]);
        let f = first_ranked(keys, cand)->0;
        if !encs[f].spec_likely_hardware() {
            assert(f != h);
            assert(ranked_before(keys, f, h));
            assert(key_lt(keys[h], keys[f]));
            lemma_ranked_order(keys, f, h, f);
        }
    }
}


/// An output type serves a request exactly when it has the requested identifier (if one
/// is asked for), every required capability flag, and accepts the requested protocol,
/// video codec and audio codec: a listed name matches without ASCII case, and an empty
/// list accepts any name.
pub proof fn law_output_rejected_iff_requirement_unmet(o: OutputTypeModel, q: RequestModel)
    ensures
        rejection_reasons(o, q).len() == 0 <==> {
            &&& q.output_id is Some ==> o.id@ == q.output_id->0@
            &&& o.flags & q.required_output_capabilities@ == q.required_output_capabilities@
            &&& q.protocol is Some ==> (o.protocols.len() == 0 || exists|i: int|
                0 <= i < o.protocols.len() && eq_ignore_ascii_case(
                    (#[trigger] o.protocols[i])@,
                    q.protocol->0@,
                ))
            &&& q.video_codec is Some ==> (o.video_codecs.len() == 0 || exists|i: int|
                0 <= i < o.video_codecs.len() && eq_ignore_ascii_case(
                    (#[trigger] o.video_codecs[i])@,
                    q.video_codec->0@,
                ))
            &&& q.audio_codec is Some ==> (o.audio_codecs.len() == 0 || exists|i: int|
                0 <= i < o.audio_codecs.len() && eq_ignore_ascii_case(
                    (#[trigger] o.audio_codecs[i])@,
                    q.audio_codec->0@,
                ))
        },
{
}

/// A capability list accepts every name it holds, whatever the ASCII case of the name
/// asked for; names that differ only in ASCII case are accepted alike; an empty list
/// accepts any name.
pub proof fn law_list_supports_ignores_case(values: Seq<String>, a: Seq<char>, b: Seq<char>)
    ensures
        eq_ignore_ascii_case(a, b) ==> (list_supports(values, a) <==> list_supports(values, b)),
        values.len() == 0 ==> list_supports(values, a),
        forall|i: int| 0 <= i < values.len() && eq_ignore_ascii_case((#[trigger] values[i])@, a)
            ==> list_supports(values, a),
{
    if eq_ignore_ascii_case(a, b) {
        if list_supports(values, a) && values.len() > 0 {
            let i = choose|i: int| 0 <= i < values.len() && eq_ignore_ascii_case((#[trigger] values[i])@, a);
            assert(eq_ignore_ascii_case(values[i]@, b));
        }
        if list_supports(values, b) && values.len() > 0 {
            let i = choose|i: int| 0 <= i < values.len() && eq_ignore_ascii_case((#[trigger] values[i])@, b);
            assert(eq_ignore_ascii_case(values[i]@, a));
        }
    }
}

/// Planning succeeds whenever a complete graph exists: if some output type serves the
/// request and every requested codec has a usable encoder of its kind (neither deprecated
/// nor internal, codec matched without ASCII case), a plan is made.
pub proof fn law_plan_found_when_graph_exists(
    encs: Seq<EncoderTypeInfo>,
    outs: Seq<OutputTypeModel>,
    q: RequestModel,
    o: int,
)
    requires
        0 <= o < outs.len(),
        rejection_reasons(outs[o], q).len() == 0,
        q.video_codec is Some ==> exists|i: int|
            0 <= i < encs.len() && encoder_selected(#[trigger] encs[i], EncoderKind::Video, q.video_codec, 0, false, false),
        q.audio_codec is Some ==> exists|i: int|
            0 <= i < encs.len() && encoder_selected(#[trigger] encs[i], EncoderKind::Audio, q.audio_codec, 0, false, false),
    ensures
        planned(encs, outs, q) is Ok,
{
    let keys = output_keys(outs);
    let compat = compatible_outputs(outs, q);
    assert(compat[o]);
    lemma_first_ranked_exists(keys, compat);
    if q.video_codec is Some {
        let vkeys = encoder_keys(encs, q.prefer_hardware_video);
        let vcand = encoder_candidates(encs, EncoderKind::Video, q.video_codec, 0, false, false);
        let w = choose|i: int|
            0 <= i < encs.len() && encoder_selected(#[trigger] encs[i], EncoderKind::Video, q.video_codec, 0, false, false);
        assert(vcand[w]);
        lemma_first_ranked_exists(vkeys, vcand);
    }
    if q.audio_codec is Some {
        let akeys = encoder_keys(encs, false);
        let acand = encoder_candidates(encs, EncoderKind::Audio, q.audio_codec, 0, false, false);
        let w = choose|i: int|
            0 <= i < encs.len() && encoder_selected(#[trigger] encs[i], EncoderKind::Audio, q.audio_codec, 0, false, false);
        assert(acand[w]);
        lemma_first_ranked_exists(akeys, acand);
    }
}

/// An encoder selection accepts exactly the encoders of its kind that carry every
/// required capability bit, that are neither deprecated nor internal unless those are
/// included, and whose codec matches the asked-for codec without ASCII case.
pub proof fn law_encoder_selection_filters(
    e: EncoderTypeInfo,
    kind: EncoderKind,
    codec: Option<String>,
    required: u32,
    include_deprecated: bool,
    include_internal: bool,
)
    ensures
        encoder_selected(e, kind, codec, required, include_deprecated, include_internal) <==> {
            &&& e.spec_kind() == kind
            &&& e.spec_capabilities() & required == required
            &&& include_deprecated || e.spec_capabilities() & OBS_ENCODER_CAP_DEPRECATED == 0
            &&& include_internal || e.spec_capabilities() & OBS_ENCODER_CAP_INTERNAL == 0
            &&& codec is Some ==> (e.spec_codec() is Some && eq_ignore_ascii_case(
                e.spec_codec()->0@,
                codec->0@,
            ))
        },
{
    let c = e.spec_capabilities();
    assert(c & OBS_ENCODER_CAP_DEPRECATED == OBS_ENCODER_CAP_DEPRECATED <==> c & OBS_ENCODER_CAP_DEPRECATED != 0) by (bit_vector)
        requires OBS_ENCODER_CAP_DEPRECATED == 1u32;
    assert(c & OBS_ENCODER_CAP_INTERNAL == OBS_ENCODER_CAP_INTERNAL <==> c & OBS_ENCODER_CAP_INTERNAL != 0) by (bit_vector)
        requires OBS_ENCODER_CAP_INTERNAL == 8u32;
}

/// An output selection accepts exactly the output types that carry every required flag
/// and accept the asked-for protocol, video codec and audio codec (without ASCII case; an
/// empty list accepts any name).
pub proof fn law_output_selection_filters(
    o: OutputTypeModel,
    protocol: Option<String>,
    video_codec: Option<String>,
    audio_codec: Option<String>,
    required: u32,
)
    ensures
        output_selected(o, protocol, video_codec, audio_codec, required) <==> {
            &&& o.flags & required == required
            &&& protocol is Some ==> (o.protocols.len() == 0 || exists|i: int|
                0 <= i < o.protocols.len() && eq_ignore_ascii_case((#[trigger] o.protocols[i])@, protocol->0@))
            &&& video_codec is Some ==> (o.video_codecs.len() == 0 || exists|i: int|
                0 <= i < o.video_codecs.len() && eq_ignore_ascii_case((#[trigger] o.video_codecs[i])@, video_codec->0@))
            &&& audio_codec is Some ==> (o.audio_codecs.len() == 0 || exists|i: int|
                0 <= i < o.audio_codecs.len() && eq_ignore_ascii_case((#[trigger] o.audio_codecs[i])@, audio_codec->0@))
        },
{
}

} // verus!
