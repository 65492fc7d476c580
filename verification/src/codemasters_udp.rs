//! Codemasters custom UDP streams (the DiRT 4 "extradata" family): a packet
//! is a run of 4-byte channels whose names, types and order come either from
//! one of four built-in modes or from an XML definition.
use crate::bytes::{le_u32, read_u32_le};
use crate::error::TelemetryError;
use crate::text::{canonical_channel_id, canonical_id, strip_trailing_nul, trim_str, trim_trailing_nul, trimmed, str_eq};
use vstd::prelude::*;
use vstd::string::{StringExecFns, StringSliceAdditionalSpecFns};
use vstd::utf8::{decode_utf8, valid_utf8};
use quick_xml::events::attributes::{AttrError, Attribute, Attributes};
use quick_xml::events::Event;
use quick_xml::reader::Reader;

verus! {

/// Size of every channel in a packet.
pub const FIELD_SIZE_BYTES: usize = 4;

/// How the 4 bytes of a channel are read.
#[derive(Debug, Clone, Copy, PartialEq, Eq, Structural)]
pub enum FieldType {
    U32,
    I32,
    F32,
    FourCC,
}

impl FieldType {
    /// The type a canonical type name denotes.
    pub open spec fn of_canonical(s: Seq<char>) -> Option<FieldType> {
        if s == "uint32"@ || s == "u32"@ {
            Some(FieldType::U32)
        } else if s == "int32"@ || s == "i32"@ {
            Some(FieldType::I32)
        } else if s == "float"@ || s == "f32"@ {
            Some(FieldType::F32)
        } else if s == "fourcc"@ {
            Some(FieldType::FourCC)
        } else {
            None
        }
    }

    /// The type named by `raw` (compared in canonical form).
    pub fn parse(raw: &str) -> (r: Option<FieldType>)
        ensures
            r == FieldType::of_canonical(canonical_id(raw@)),
    {
        let normalized = canonical_channel_id(raw);
        let n = normalized.as_str();
        if str_eq(n, "uint32") || str_eq(n, "u32") {
            Some(FieldType::U32)
        } else if str_eq(n, "int32") || str_eq(n, "i32") {
            Some(FieldType::I32)
        } else if str_eq(n, "float") || str_eq(n, "f32") {
            Some(FieldType::F32)
        } else if str_eq(n, "fourcc") {
            Some(FieldType::FourCC)
        } else {
            None
        }
    }
}

/// One channel definition, by its views.
pub struct FieldModel {
    pub channel: Seq<char>,
    pub field_type: FieldType,
    pub scale_text: Option<Seq<char>>,
    pub fourcc_text: Option<Seq<char>>,
}

/// One channel: its canonical name, its type, the text of its scale factor
/// when the definition gives one (read as a positive finite number, `1.0`
/// otherwise, where the value is scaled) and a FourCC annotation.
#[derive(Debug, Clone)]
pub struct FieldSpec {
    pub channel: String,
    pub field_type: FieldType,
    pub scale_text: Option<String>,
    pub fourcc_text: Option<String>,
}

pub open spec fn opt_view(o: Option<String>) -> Option<Seq<char>> {
    match o {
        Some(s) => Some(s@),
        None => None,
    }
}

impl View for FieldSpec {
    type V = FieldModel;

    open spec fn view(&self) -> FieldModel {
        FieldModel {
            channel: self.channel@,
            field_type: self.field_type,
            scale_text: opt_view(self.scale_text),
            fourcc_text: opt_view(self.fourcc_text),
        }
    }
}

pub open spec fn fields_view(fields: Seq<FieldSpec>) -> Seq<FieldModel> {
    fields.map_values(|f: FieldSpec| f@)
}

/// An ordered channel layout.
#[derive(Debug, Clone)]
pub struct CustomUdpSpec {
    pub fields: Vec<FieldSpec>,
}

impl View for CustomUdpSpec {
    type V = Seq<FieldModel>;

    open spec fn view(&self) -> Seq<FieldModel> {
        fields_view(self.fields@)
    }
}

/// A built-in channel: canonical name of `name`, no scale, no FourCC.
pub open spec fn builtin_field(name: Seq<char>, field_type: FieldType) -> FieldModel {
    FieldModel { channel: canonical_id(name), field_type, scale_text: None, fourcc_text: None }
}

/// The channels every built-in mode starts with.
pub open spec fn base_layout() -> Seq<FieldModel> {
    seq![
        builtin_field("speed"@, FieldType::F32),
        builtin_field("engine_rate"@, FieldType::F32),
        builtin_field("gear"@, FieldType::I32),
        builtin_field("steering_input"@, FieldType::F32),
        builtin_field("throttle_input"@, FieldType::F32),
        builtin_field("brake_input"@, FieldType::F32),
        builtin_field("clutch_input"@, FieldType::F32),
    ]
}

pub open spec fn patch_speeds() -> Seq<FieldModel> {
    seq![
        builtin_field("wheel_patch_speed_fl"@, FieldType::F32),
        builtin_field("wheel_patch_speed_fr"@, FieldType::F32),
        builtin_field("wheel_patch_speed_rl"@, FieldType::F32),
        builtin_field("wheel_patch_speed_rr"@, FieldType::F32),
    ]
}

pub open spec fn suspension_positions() -> Seq<FieldModel> {
    seq![
        builtin_field("suspension_position_fl"@, FieldType::F32),
        builtin_field("suspension_position_fr"@, FieldType::F32),
        builtin_field("suspension_position_rl"@, FieldType::F32),
        builtin_field("suspension_position_rr"@, FieldType::F32),
    ]
}

pub open spec fn suspension_velocities() -> Seq<FieldModel> {
    seq![
        builtin_field("suspension_velocity_fl"@, FieldType::F32),
        builtin_field("suspension_velocity_fr"@, FieldType::F32),
        builtin_field("suspension_velocity_rl"@, FieldType::F32),
        builtin_field("suspension_velocity_rr"@, FieldType::F32),
    ]
}

/// The channel layout of built-in mode `mode` (0 to 3; any other value
/// has the base channels only).
pub open spec fn mode_layout(mode: u8) -> Seq<FieldModel> {
    if mode == 1 {
        base_layout() + patch_speeds() + suspension_positions()
    } else if mode == 2 {
        base_layout() + patch_speeds() + suspension_velocities() + seq![
            builtin_field("long_accel"@, FieldType::F32),
            builtin_field("lat_accel"@, FieldType::F32),
        ]
    } else if mode == 3 {
        base_layout() + patch_speeds() + suspension_velocities() + suspension_positions() + seq![
            builtin_field("long_accel"@, FieldType::F32),
            builtin_field("lat_accel"@, FieldType::F32),
            builtin_field("vert_accel"@, FieldType::F32),
        ]
    } else {
        base_layout()
    }
}

/// A built-in channel definition.
pub fn field(name: &str, field_type: FieldType) -> (r: FieldSpec)
    ensures
        r@ == builtin_field(name@, field_type),
{
    FieldSpec { channel: canonical_channel_id(name), field_type, scale_text: None, fourcc_text: None }
}

fn push_field(fields: &mut Vec<FieldSpec>, name: &str, field_type: FieldType)
    ensures
        fields_view(final(fields)@) == fields_view(old(fields)@).push(builtin_field(name@, field_type)),
{
    let f = field(name, field_type);
    fields.push(f);
    assert(fields_view(fields@) =~= fields_view(old(fields)@).push(builtin_field(name@, field_type)));
}

fn push_patch_speeds(fields: &mut Vec<FieldSpec>)
    ensures
        fields_view(final(fields)@) == fields_view(old(fields)@) + patch_speeds(),
{
    push_field(fields, "wheel_patch_speed_fl", FieldType::F32);
    push_field(fields, "wheel_patch_speed_fr", FieldType::F32);
    push_field(fields, "wheel_patch_speed_rl", FieldType::F32);
    push_field(fields, "wheel_patch_speed_rr", FieldType::F32);
    assert(fields_view(fields@) =~= fields_view(old(fields)@) + patch_speeds());
}

fn push_suspension_positions(fields: &mut Vec<FieldSpec>)
    ensures
        fields_view(final(fields)@) == fields_view(old(fields)@) + suspension_positions(),
{
    push_field(fields, "suspension_position_fl", FieldType::F32);
    push_field(fields, "suspension_position_fr", FieldType::F32);
    push_field(fields, "suspension_position_rl", FieldType::F32);
    push_field(fields, "suspension_position_rr", FieldType::F32);
    assert(fields_view(fields@) =~= fields_view(old(fields)@) + suspension_positions());
}

fn push_suspension_velocities(fields: &mut Vec<FieldSpec>)
    ensures
        fields_view(final(fields)@) == fields_view(old(fields)@) + suspension_velocities(),
{
    push_field(fields, "suspension_velocity_fl", FieldType::F32);
    push_field(fields, "suspension_velocity_fr", FieldType::F32);
    push_field(fields, "suspension_velocity_rl", FieldType::F32);
    push_field(fields, "suspension_velocity_rr", FieldType::F32);
    assert(fields_view(fields@) =~= fields_view(old(fields)@) + suspension_velocities());
}

/// The channels every built-in mode starts with.
pub fn base_fields() -> (r: Vec<FieldSpec>)
    ensures
        fields_view(r@) == base_layout(),
{
    let mut fields: Vec<FieldSpec> = Vec::new();
    assert(fields_view(fields@) =~= Seq::<FieldModel>::empty());
    push_field(&mut fields, "speed", FieldType::F32);
    push_field(&mut fields, "engine_rate", FieldType::F32);
    push_field(&mut fields, "gear", FieldType::I32);
    push_field(&mut fields, "steering_input", FieldType::F32);
    push_field(&mut fields, "throttle_input", FieldType::F32);
    push_field(&mut fields, "brake_input", FieldType::F32);
    push_field(&mut fields, "clutch_input", FieldType::F32);
    assert(fields_view(fields@) =~= base_layout());
    fields
}

/// The layout of built-in mode `mode`.
pub fn builtin_mode_spec(mode: u8) -> (r: CustomUdpSpec)
    ensures
        r@ == mode_layout(mode),
{
    let mut fields = base_fields();
    if mode == 1 {
        push_patch_speeds(&mut fields);
        push_suspension_positions(&mut fields);
    } else if mode == 2 {
        push_patch_speeds(&mut fields);
        push_suspension_velocities(&mut fields);
        push_field(&mut fields, "long_accel", FieldType::F32);
        push_field(&mut fields, "lat_accel", FieldType::F32);
    } else if mode == 3 {
        push_patch_speeds(&mut fields);
        push_suspension_velocities(&mut fields);
        push_suspension_positions(&mut fields);
        push_field(&mut fields, "long_accel", FieldType::F32);
        push_field(&mut fields, "lat_accel", FieldType::F32);
        push_field(&mut fields, "vert_accel", FieldType::F32);
    }
    let r = CustomUdpSpec { fields };
    assert(r@ =~= mode_layout(mode));
    r
}

/// The built-in layouts, channel by channel. Mode 3 is the base channels
/// (speed, engine rate, gear, steering, throttle, brake, clutch), the four
/// wheel patch speeds, the four suspension velocities, the four suspension
/// positions, then longitudinal, lateral and vertical acceleration. Mode 2
/// is its first fifteen channels followed by longitudinal then lateral
/// acceleration (longitudinal at 15, lateral at 16); mode 1 is the base
/// channels, the patch speeds, then the suspension positions; mode 0 is the
/// base channels alone.
pub proof fn lemma_builtin_layouts()
    ensures
        mode_layout(0).len() == 7,
        mode_layout(1).len() == 15,
        mode_layout(2).len() == 17,
        mode_layout(3).len() == 22,
        mode_layout(3)[0] == builtin_field("speed"@, FieldType::F32),
        mode_layout(3)[1] == builtin_field("engine_rate"@, FieldType::F32),
        mode_layout(3)[2] == builtin_field("gear"@, FieldType::I32),
        mode_layout(3)[3] == builtin_field("steering_input"@, FieldType::F32),
        mode_layout(3)[4] == builtin_field("throttle_input"@, FieldType::F32),
        mode_layout(3)[5] == builtin_field("brake_input"@, FieldType::F32),
        mode_layout(3)[6] == builtin_field("clutch_input"@, FieldType::F32),
        mode_layout(3)[7] == builtin_field("wheel_patch_speed_fl"@, FieldType::F32),
        mode_layout(3)[8] == builtin_field("wheel_patch_speed_fr"@, FieldType::F32),
        mode_layout(3)[9] == builtin_field("wheel_patch_speed_rl"@, FieldType::F32),
        mode_layout(3)[10] == builtin_field("wheel_patch_speed_rr"@, FieldType::F32),
        mode_layout(3)[11] == builtin_field("suspension_velocity_fl"@, FieldType::F32),
        mode_layout(3)[12] == builtin_field("suspension_velocity_fr"@, FieldType::F32),
        mode_layout(3)[13] == builtin_field("suspension_velocity_rl"@, FieldType::F32),
        mode_layout(3)[14] == builtin_field("suspension_velocity_rr"@, FieldType::F32),
        mode_layout(3)[15] == builtin_field("suspension_position_fl"@, FieldType::F32),
        mode_layout(3)[16] == builtin_field("suspension_position_fr"@, FieldType::F32),
        mode_layout(3)[17] == builtin_field("suspension_position_rl"@, FieldType::F32),
        mode_layout(3)[18] == builtin_field("suspension_position_rr"@, FieldType::F32),
        mode_layout(3)[19] == builtin_field("long_accel"@, FieldType::F32),
        mode_layout(3)[20] == builtin_field("lat_accel"@, FieldType::F32),
        mode_layout(3)[21] == builtin_field("vert_accel"@, FieldType::F32),
        forall|i: int| 0 <= i < 15 ==> #[trigger] mode_layout(2)[i] == mode_layout(3)[i],
        mode_layout(2)[15] == builtin_field("long_accel"@, FieldType::F32),
        mode_layout(2)[16] == builtin_field("lat_accel"@, FieldType::F32),
        forall|i: int| 0 <= i < 11 ==> #[trigger] mode_layout(1)[i] == mode_layout(3)[i],
        forall|i: int| 11 <= i < 15 ==> #[trigger] mode_layout(1)[i] == mode_layout(3)[i + 4],
        forall|i: int| 0 <= i < 7 ==> #[trigger] mode_layout(0)[i] == mode_layout(3)[i],
{
    assert(mode_layout(0) =~= base_layout());
}

/// The layout a configured mode selects: modes 0 to 3 as given, any other
/// value mode 1.
pub open spec fn layout_for_mode(mode: u8) -> Seq<FieldModel> {
    if mode <= 3 {
        mode_layout(mode)
    } else {
        mode_layout(1)
    }
}

/// Bytes a packet of `n` channels needs, saturating at the word size.
pub open spec fn bytes_for(n: int) -> usize {
    if n * 4 <= usize::MAX {
        (n * 4) as usize
    } else {
        usize::MAX
    }
}

/// The bit patterns of a packet's channels, one word per channel, and the
/// text of its last FourCC channel.
#[derive(Debug, Clone)]
pub struct DecodedCodemastersPacket {
    pub words: Vec<u32>,
    pub fourcc: Option<String>,
}

/// Lossy UTF-8 decoding (`String::from_utf8_lossy`): invalid sequences
/// become U+FFFD.
pub uninterp spec fn lossy_utf8(bytes: Seq<u8>) -> Seq<char>;

/// Decodes `bytes` as UTF-8, replacing invalid sequences
/// (`String::from_utf8_lossy`). The replacement rule is not restated.
#[verifier::external_body]
fn utf8_lossy(bytes: &[u8]) -> (r: String)
    ensures
        r@ == lossy_utf8(bytes@),
        valid_utf8(bytes@) ==> r@ == decode_utf8(bytes@),
{
    String::from_utf8_lossy(bytes).into_owned()
}

/// The text of a FourCC channel: lossily decoded, trailing NULs dropped,
/// then trimmed.
pub open spec fn fourcc_text_of(word: Seq<u8>) -> Seq<char> {
    trimmed(strip_trailing_nul(lossy_utf8(word)))
}

/// The text of the last FourCC channel among the first `i` channels.
pub open spec fn last_fourcc(layout: Seq<FieldModel>, d: Seq<u8>, i: int) -> Option<Seq<char>>
    decreases i,
{
    if i <= 0 {
        None
    } else if layout[i - 1].field_type == FieldType::FourCC {
        Some(fourcc_text_of(d.subrange(4 * (i - 1), 4 * i)))
    } else {
        last_fourcc(layout, d, i - 1)
    }
}

fn fourcc_text(word: &[u8]) -> (r: String)
    ensures
        r@ == fourcc_text_of(word@),
{
    let lossy = utf8_lossy(word);
    let stripped = trim_trailing_nul(lossy.as_str());
    String::from_str(trim_str(stripped))
}

/// The position of the last numeric (not FourCC) channel called `id`.
pub open spec fn last_numeric_channel(fields: Seq<FieldModel>, id: Seq<char>) -> Option<int>
    decreases fields.len(),
{
    if fields.len() == 0 {
        None
    } else if fields.last().channel == id && fields.last().field_type != FieldType::FourCC {
        Some(fields.len() - 1)
    } else {
        last_numeric_channel(fields.drop_last(), id)
    }
}

/// The channel that a list of aliases resolves to: the last numeric channel
/// named by the first alias (in canonical form) that names one.
pub open spec fn alias_channel(fields: Seq<FieldModel>, aliases: Seq<Seq<char>>) -> Option<int>
    decreases aliases.len(),
{
    if aliases.len() == 0 {
        None
    } else {
        match last_numeric_channel(fields, canonical_id(aliases[0])) {
            Some(i) => Some(i),
            None => alias_channel(fields, aliases.drop_first()),
        }
    }
}

pub open spec fn alias_views(aliases: Seq<&str>) -> Seq<Seq<char>> {
    aliases.map_values(|a: &str| a@)
}

impl CustomUdpSpec {
    /// The layout of a configured mode.
    pub fn from_mode(mode: u8) -> (r: Self)
        ensures
            r@ == layout_for_mode(mode),
    {
        if mode <= 3 {
            builtin_mode_spec(mode)
        } else {
            builtin_mode_spec(1)
        }
    }

    /// The layout of mode 0.
    pub fn default_spec() -> (r: Self)
        ensures
            r@ == mode_layout(0),
    {
        builtin_mode_spec(0)
    }

    /// The position of the last numeric channel called `id`.
    fn last_numeric_index(&self, id: &str) -> (r: Option<usize>)
        ensures
            r == (match last_numeric_channel(self@, id@) {
                Some(i) => Some(i as usize),
                None => None::<usize>,
            }),
    {
        let ghost fv = self@;
        let mut k: usize = self.fields.len();
        assert(fv.subrange(0, k as int) =~= fv);
        while k > 0
            invariant
                k <= self.fields@.len(),
                fv == self@,
                fv.len() == self.fields@.len(),
                last_numeric_channel(fv, id@) == last_numeric_channel(fv.subrange(0, k as int), id@),
            decreases k,
        {
            let f = &self.fields[k - 1];
            proof {
                let sub = fv.subrange(0, k as int);
                assert(sub.drop_last() =~= fv.subrange(0, k - 1));
                assert(sub.last() == fv[k - 1]);
                assert(fv[k - 1] == self.fields@[k - 1]@);
            }
            if str_eq(f.channel.as_str(), id) && f.field_type != FieldType::FourCC {
                return Some(k - 1);
            }
            k = k - 1;
        }
        proof {
            assert(fv.subrange(0, 0).len() == 0);
        }
        None
    }

    /// The channel a list of aliases names: the last numeric channel whose
    /// name is the canonical form of the first alias that names one.
    pub fn channel_index(&self, aliases: &[&str]) -> (r: Option<usize>)
        ensures
            r == (match alias_channel(self@, alias_views(aliases@)) {
                Some(i) => Some(i as usize),
                None => None::<usize>,
            }),
    {
        let ghost avs = alias_views(aliases@);
        let mut j: usize = 0;
        assert(avs.subrange(0, avs.len() as int) =~= avs);
        while j < aliases.len()
            invariant
                j <= aliases@.len(),
                avs == alias_views(aliases@),
                avs.len() == aliases@.len(),
                alias_channel(self@, avs) == alias_channel(self@, avs.subrange(j as int, avs.len() as int)),
            decreases aliases@.len() - j,
        {
            let id = canonical_channel_id(aliases[j]);
            let ghost rest = avs.subrange(j as int, avs.len() as int);
            proof {
                assert(rest[0] == aliases@[j as int]@);
                assert(rest.drop_first() =~= avs.subrange(j + 1, avs.len() as int));
            }
            match self.last_numeric_index(id.as_str()) {
                Some(i) => {
                    return Some(i);
                },
                None => {},
            }
            j = j + 1;
        }
        proof {
            assert(avs.subrange(avs.len() as int, avs.len() as int).len() == 0);
        }
        None
    }

    /// Bytes a packet of this layout needs.
    pub fn expected_bytes(&self) -> (r: usize)
        ensures
            r == bytes_for(self@.len() as int),
    {
        let n = self.fields.len();
        if n <= usize::MAX / FIELD_SIZE_BYTES {
            n * FIELD_SIZE_BYTES
        } else {
            usize::MAX
        }
    }

    /// Read the channels of `raw`: too short under 4 bytes per channel,
    /// otherwise each channel's word and the text of the last FourCC one.
    pub fn decode(&self, raw: &[u8]) -> (r: Result<DecodedCodemastersPacket, TelemetryError>)
        ensures
            raw@.len() < 4 * self@.len() ==> r == Err::<DecodedCodemastersPacket, TelemetryError>(
                TelemetryError::TooShort { needed: bytes_for(self@.len() as int), actual: raw@.len() as usize },
            ),
            raw@.len() >= 4 * self@.len() ==> (r matches Ok(p) && p.words@.len() == self@.len()
                && (forall|i: int| 0 <= i < self@.len() ==> #[trigger] p.words@[i] == le_u32(raw@, 4 * i) as u32)
                && opt_view(p.fourcc) == last_fourcc(self@, raw@, self@.len() as int)),
    {
        let n = self.fields.len();
        let expected = self.expected_bytes();
        if raw.len() / 4 < n {
            return Err(TelemetryError::TooShort { needed: expected, actual: raw.len() });
        }
        let raw_len = raw.len();
        let mut words: Vec<u32> = Vec::new();
        let mut fourcc: Option<String> = None;
        let mut i: usize = 0;
        while i < n
            invariant
                n == self@.len(),
                n == self.fields@.len(),
                4 * n <= raw@.len(),
                raw_len == raw@.len(),
                0 <= i <= n,
                words@.len() == i,
                forall|k: int| 0 <= k < i ==> #[trigger] words@[k] == le_u32(raw@, 4 * k) as u32,
                opt_view(fourcc) == last_fourcc(self@, raw@, i as int),
            decreases n - i,
        {
            let off = 4 * i;
            words.push(read_u32_le(raw, off));
            if self.fields[i].field_type == FieldType::FourCC {
                let word = vstd::slice::slice_subrange(raw, off, off + 4);
                fourcc = Some(fourcc_text(word));
            }
            assert(self@[i as int].field_type == self.fields@[i as int].field_type);
            i = i + 1;
        }
        Ok(DecodedCodemastersPacket { words, fourcc })
    }
}


// ── XML channel definitions ──────────────────────────────────────────────────

/// Whether two byte strings are equal.
fn bytes_eq(a: &[u8], b: &[u8]) -> (r: bool)
    ensures
        r == (a@ == b@),
{
    if a.len() != b.len() {
        return false;
    }
    let mut i: usize = 0;
    while i < a.len()
        invariant
            a@.len() == b@.len(),
            0 <= i <= a@.len(),
            forall|k: int| 0 <= k < i ==> a@[k] == b@[k],
        decreases a@.len() - i,
    {
        if a[i] != b[i] {
            return false;
        }
        i = i + 1;
    }
    assert(a@ =~= b@);
    true
}

pub open spec fn tag_field() -> Seq<u8> {
    seq![102u8, 105u8, 101u8, 108u8, 100u8]
}

pub open spec fn tag_channel() -> Seq<u8> {
    seq![99u8, 104u8, 97u8, 110u8, 110u8, 101u8, 108u8]
}

pub open spec fn tag_name() -> Seq<u8> {
    seq![110u8, 97u8, 109u8, 101u8]
}

pub open spec fn tag_type() -> Seq<u8> {
    seq![116u8, 121u8, 112u8, 101u8]
}

pub open spec fn tag_scale() -> Seq<u8> {
    seq![115u8, 99u8, 97u8, 108u8, 101u8]
}

pub open spec fn tag_fourcc() -> Seq<u8> {
    seq![102u8, 111u8, 117u8, 114u8, 99u8, 99u8]
}

/// Elements named `field` or `channel` define a channel.
pub open spec fn is_field_tag(name: Seq<u8>) -> bool {
    name == tag_field() || name == tag_channel()
}

fn is_field_tag_exec(name: &[u8]) -> (r: bool)
    ensures
        r == is_field_tag(name@),
{
    let field: [u8; 5] = [102, 105, 101, 108, 100];
    let channel: [u8; 7] = [99, 104, 97, 110, 110, 101, 108];
    assert(field@ =~= tag_field());
    assert(channel@ =~= tag_channel());
    bytes_eq(name, field.as_slice()) || bytes_eq(name, channel.as_slice())
}

/// The child elements of a channel element whose text sets a property.
#[derive(Debug, Clone, Copy, PartialEq, Eq, Structural)]
pub enum ChildTag {
    Name,
    Type,
    Scale,
    FourCC,
}

pub open spec fn child_of(name: Seq<u8>) -> Option<ChildTag> {
    if name == tag_name() {
        Some(ChildTag::Name)
    } else if name == tag_type() {
        Some(ChildTag::Type)
    } else if name == tag_scale() {
        Some(ChildTag::Scale)
    } else if name == tag_fourcc() {
        Some(ChildTag::FourCC)
    } else {
        None
    }
}

fn child_of_exec(name: &[u8]) -> (r: Option<ChildTag>)
    ensures
        r == child_of(name@),
{
    let n: [u8; 4] = [110, 97, 109, 101];
    let t: [u8; 4] = [116, 121, 112, 101];
    let s: [u8; 5] = [115, 99, 97, 108, 101];
    let f: [u8; 6] = [102, 111, 117, 114, 99, 99];
    assert(n@ =~= tag_name());
    assert(t@ =~= tag_type());
    assert(s@ =~= tag_scale());
    assert(f@ =~= tag_fourcc());
    if bytes_eq(name, n.as_slice()) {
        Some(ChildTag::Name)
    } else if bytes_eq(name, t.as_slice()) {
        Some(ChildTag::Type)
    } else if bytes_eq(name, s.as_slice()) {
        Some(ChildTag::Scale)
    } else if bytes_eq(name, f.as_slice()) {
        Some(ChildTag::FourCC)
    } else {
        None
    }
}

/// An attribute of an element, as raw bytes.
#[derive(Debug, Clone)]
pub struct XmlAttribute {
    pub key: Vec<u8>,
    pub value: Vec<u8>,
}

impl View for XmlAttribute {
    type V = (Seq<u8>, Seq<u8>);

    open spec fn view(&self) -> (Seq<u8>, Seq<u8>) {
        (self.key@, self.value@)
    }
}

/// The events of an XML document that the definition reader acts on.
/// `attributes` is `None` when the element's attributes are malformed.
#[derive(Debug, Clone)]
pub enum XmlEvent {
    Start { name: Vec<u8>, attributes: Option<Vec<XmlAttribute>> },
    Empty { name: Vec<u8>, attributes: Option<Vec<XmlAttribute>> },
    Text(Vec<u8>),
    End(Vec<u8>),
    Eof,
    Other,
}

impl XmlEvent {
    pub fn is_eof(&self) -> (r: bool)
        ensures
            r == (self is Eof),
    {
        match self {
            XmlEvent::Eof => true,
            _ => false,
        }
    }
}

pub enum XmlEventModel {
    Start(Seq<u8>, Option<Seq<(Seq<u8>, Seq<u8>)>>),
    Empty(Seq<u8>, Option<Seq<(Seq<u8>, Seq<u8>)>>),
    Text(Seq<u8>),
    End(Seq<u8>),
    Eof,
    Other,
}

pub open spec fn attrs_view(a: Option<Vec<XmlAttribute>>) -> Option<Seq<(Seq<u8>, Seq<u8>)>> {
    match a {
        Some(v) => Some(v@.map_values(|x: XmlAttribute| x@)),
        None => None,
    }
}

impl View for XmlEvent {
    type V = XmlEventModel;

    open spec fn view(&self) -> XmlEventModel {
        match self {
            XmlEvent::Start { name, attributes } => XmlEventModel::Start(name@, attrs_view(*attributes)),
            XmlEvent::Empty { name, attributes } => XmlEventModel::Empty(name@, attrs_view(*attributes)),
            XmlEvent::Text(t) => XmlEventModel::Text(t@),
            XmlEvent::End(n) => XmlEventModel::End(n@),
            XmlEvent::Eof => XmlEventModel::Eof,
            XmlEvent::Other => XmlEventModel::Other,
        }
    }
}

/// A channel definition while it is being read.
pub struct PendingModel {
    pub channel: Option<Seq<char>>,
    pub field_type: Option<FieldType>,
    pub scale_text: Option<Seq<char>>,
    pub fourcc_text: Option<Seq<char>>,
    pub pending_name: Option<Seq<char>>,
}

pub open spec fn empty_pending() -> PendingModel {
    PendingModel { channel: None, field_type: None, scale_text: None, fourcc_text: None, pending_name: None }
}

/// A channel definition while it is being read.
pub struct PendingField {
    pub channel: Option<String>,
    pub field_type: Option<FieldType>,
    pub scale_text: Option<String>,
    pub fourcc_text: Option<String>,
    pub pending_name: Option<String>,
}

impl View for PendingField {
    type V = PendingModel;

    open spec fn view(&self) -> PendingModel {
        PendingModel {
            channel: opt_view(self.channel),
            field_type: self.field_type,
            scale_text: opt_view(self.scale_text),
            fourcc_text: opt_view(self.fourcc_text),
            pending_name: opt_view(self.pending_name),
        }
    }
}

/// The text of an attribute value or an element: decoded as UTF-8 (empty
/// when invalid), then trimmed.
pub open spec fn text_value(b: Seq<u8>) -> Seq<char> {
    if valid_utf8(b) {
        trimmed(decode_utf8(b))
    } else {
        Seq::empty()
    }
}

fn text_value_exec(b: &[u8]) -> (r: String)
    ensures
        r@ == text_value(b@),
{
    match crate::acc_reader::string_from_utf8(vstd::slice::slice_to_vec(b)) {
        Some(s) => String::from_str(trim_str(s.as_str())),
        None => {
            proof {
                reveal_strlit("");
            }
            String::from_str("")
        },
    }
}

/// One attribute applied to a definition: `name`/`channel` set the
/// canonical channel, `type` the type, `scale` and `fourcc` their texts; an
/// empty value changes nothing.
pub open spec fn apply_attr(p: PendingModel, key: Seq<u8>, value: Seq<u8>) -> PendingModel {
    let v = text_value(value);
    if v.len() == 0 {
        p
    } else if key == tag_name() || key == tag_channel() {
        PendingModel { channel: Some(canonical_id(v)), ..p }
    } else if key == tag_type() {
        PendingModel { field_type: FieldType::of_canonical(canonical_id(v)), ..p }
    } else if key == tag_scale() {
        PendingModel { scale_text: Some(v), ..p }
    } else if key == tag_fourcc() {
        PendingModel { fourcc_text: Some(v), ..p }
    } else {
        p
    }
}

/// The definition an element's attributes give, applied in order.
pub open spec fn pending_of_attrs(attrs: Seq<(Seq<u8>, Seq<u8>)>) -> PendingModel
    decreases attrs.len(),
{
    if attrs.len() == 0 {
        empty_pending()
    } else {
        apply_attr(pending_of_attrs(attrs.drop_last()), attrs.last().0, attrs.last().1)
    }
}

/// The text of a child element applied to a definition.
pub open spec fn apply_child(p: PendingModel, c: ChildTag, v: Seq<char>) -> PendingModel {
    match c {
        ChildTag::Name => PendingModel { pending_name: Some(v), ..p },
        ChildTag::Type => PendingModel { field_type: FieldType::of_canonical(canonical_id(v)), ..p },
        ChildTag::Scale => PendingModel { scale_text: Some(v), ..p },
        ChildTag::FourCC => PendingModel { fourcc_text: Some(v), ..p },
    }
}

/// A finished definition: the name from a `<name>` child (else the
/// attribute channel) canonicalized; a missing channel or type is an error.
pub open spec fn finalize(p: PendingModel) -> Result<FieldModel, TelemetryError> {
    let name = if p.pending_name is Some { p.pending_name } else { p.channel };
    match name {
        None => Err(TelemetryError::MissingChannel),
        Some(n) => match p.field_type {
            None => Err(TelemetryError::MissingFieldType),
            Some(t) => Ok(FieldModel { channel: canonical_id(n), field_type: t, scale_text: p.scale_text, fourcc_text: p.fourcc_text }),
        },
    }
}

/// A definition whose attributes already name the channel and the type.
pub open spec fn complete(p: PendingModel) -> FieldModel {
    FieldModel { channel: p.channel->0, field_type: p.field_type->0, scale_text: p.scale_text, fourcc_text: p.fourcc_text }
}

fn pending_from_attributes(attrs: &Vec<XmlAttribute>) -> (r: PendingField)
    ensures
        r@ == pending_of_attrs(attrs@.map_values(|x: XmlAttribute| x@)),
{
    let ghost av = attrs@.map_values(|x: XmlAttribute| x@);
    let mut p = PendingField { channel: None, field_type: None, scale_text: None, fourcc_text: None, pending_name: None };
    let mut i: usize = 0;
    assert(av.subrange(0, 0) =~= Seq::<(Seq<u8>, Seq<u8>)>::empty());
    while i < attrs.len()
        invariant
            av == attrs@.map_values(|x: XmlAttribute| x@),
            0 <= i <= attrs@.len(),
            p@ == pending_of_attrs(av.subrange(0, i as int)),
        decreases attrs@.len() - i,
    {
        let a = &attrs[i];
        assert(av.subrange(0, i + 1).drop_last() =~= av.subrange(0, i as int));
        assert(av.subrange(0, i + 1).last() == a@);
        let v = text_value_exec(a.value.as_slice());
        if v.as_str().unicode_len() == 0 {
        } else {
            let name: [u8; 4] = [110, 97, 109, 101];
            let channel: [u8; 7] = [99, 104, 97, 110, 110, 101, 108];
            let ty: [u8; 4] = [116, 121, 112, 101];
            let scale: [u8; 5] = [115, 99, 97, 108, 101];
            let fourcc: [u8; 6] = [102, 111, 117, 114, 99, 99];
            assert(name@ =~= tag_name());
            assert(channel@ =~= tag_channel());
            assert(ty@ =~= tag_type());
            assert(scale@ =~= tag_scale());
            assert(fourcc@ =~= tag_fourcc());
            let key = a.key.as_slice();
            if bytes_eq(key, name.as_slice()) || bytes_eq(key, channel.as_slice()) {
                p.channel = Some(canonical_channel_id(v.as_str()));
            } else if bytes_eq(key, ty.as_slice()) {
                p.field_type = FieldType::parse(v.as_str());
            } else if bytes_eq(key, scale.as_slice()) {
                p.scale_text = Some(v);
            } else if bytes_eq(key, fourcc.as_slice()) {
                p.fourcc_text = Some(v);
            }
        }
        i = i + 1;
    }
    assert(av.subrange(0, attrs@.len() as int) =~= av);
    p
}

fn finalize_field(p: PendingField) -> (r: Result<FieldSpec, TelemetryError>)
    ensures
        match finalize(p@) {
            Ok(f) => r matches Ok(g) && g@ == f,
            Err(e) => r == Err::<FieldSpec, TelemetryError>(e),
        },
{
    let PendingField { channel, field_type, scale_text, fourcc_text, pending_name } = p;
    let name = match pending_name {
        Some(n) => Some(n),
        None => channel,
    };
    match name {
        None => Err(TelemetryError::MissingChannel),
        Some(n) => match field_type {
            None => Err(TelemetryError::MissingFieldType),
            Some(t) => Ok(FieldSpec { channel: canonical_channel_id(n.as_str()), field_type: t, scale_text, fourcc_text }),
        },
    }
}

fn complete_field(p: PendingField) -> (r: FieldSpec)
    requires
        p.channel is Some,
        p.field_type is Some,
    ensures
        r@ == complete(p@),
{
    let PendingField { channel, field_type, scale_text, fourcc_text, pending_name: _ } = p;
    match (channel, field_type) {
        (Some(c), Some(t)) => FieldSpec { channel: c, field_type: t, scale_text, fourcc_text },
        _ => {
            assert(false);
            FieldSpec { channel: String::new(), field_type: FieldType::F32, scale_text: None, fourcc_text: None }
        },
    }
}

/// The reading state of a definition document.
pub struct XmlModel {
    pub fields: Seq<FieldModel>,
    pub active: Option<PendingModel>,
    pub in_field_depth: Option<usize>,
    pub active_child: Option<ChildTag>,
    pub depth: usize,
}

pub open spec fn initial_model() -> XmlModel {
    XmlModel { fields: Seq::empty(), active: None, in_field_depth: None, active_child: None, depth: 0 }
}

pub open spec fn inc(d: usize) -> usize {
    if d == usize::MAX { d } else { (d + 1) as usize }
}

pub open spec fn dec(d: usize) -> usize {
    if d == 0 { 0 } else { (d - 1) as usize }
}

/// One event applied to the reading state.
pub open spec fn xml_step(st: XmlModel, ev: XmlEventModel) -> Result<XmlModel, TelemetryError> {
    match ev {
        XmlEventModel::Start(name, attrs) => {
            let depth = inc(st.depth);
            if is_field_tag(name) {
                match attrs {
                    None => Err(TelemetryError::XmlSyntax),
                    Some(a) => {
                        let f = pending_of_attrs(a);
                        if f.channel is Some && f.field_type is Some {
                            Ok(XmlModel { fields: st.fields.push(complete(f)), depth, ..st })
                        } else {
                            Ok(XmlModel { active: Some(f), in_field_depth: Some(depth), depth, ..st })
                        }
                    },
                }
            } else if st.active is Some && child_of(name) is Some {
                Ok(XmlModel { active_child: child_of(name), depth, ..st })
            } else {
                Ok(XmlModel { depth, ..st })
            }
        },
        XmlEventModel::Empty(name, attrs) => {
            if is_field_tag(name) {
                match attrs {
                    None => Err(TelemetryError::XmlSyntax),
                    Some(a) => match finalize(pending_of_attrs(a)) {
                        Err(e) => Err(e),
                        Ok(f) => Ok(XmlModel { fields: st.fields.push(f), ..st }),
                    },
                }
            } else {
                Ok(st)
            }
        },
        XmlEventModel::Text(t) => {
            if st.active is Some && st.active_child is Some && text_value(t).len() > 0 {
                Ok(XmlModel { active: Some(apply_child(st.active->0, st.active_child->0, text_value(t))), ..st })
            } else {
                Ok(st)
            }
        },
        XmlEventModel::End(name) => {
            let st1 = if child_of(name) is Some { XmlModel { active_child: None, ..st } } else { st };
            let r2 = if is_field_tag(name) {
                if st1.in_field_depth == Some(st1.depth) && st1.active is Some {
                    match finalize(st1.active->0) {
                        Err(e) => Err(e),
                        Ok(f) => Ok(XmlModel { fields: st1.fields.push(f), active: None, in_field_depth: None, ..st1 }),
                    }
                } else {
                    Ok(XmlModel { in_field_depth: None, ..st1 })
                }
            } else {
                Ok(st1)
            };
            match r2 {
                Err(e) => Err(e),
                Ok(st2) => {
                    let st3 = if st2.in_field_depth == Some(st2.depth) { XmlModel { in_field_depth: None, ..st2 } } else { st2 };
                    Ok(XmlModel { depth: dec(st3.depth), ..st3 })
                },
            }
        },
        XmlEventModel::Eof => Ok(st),
        XmlEventModel::Other => Ok(st),
    }
}

/// The reading state after a run of events, or the first error.
pub open spec fn fold_events(evs: Seq<XmlEventModel>) -> Result<XmlModel, TelemetryError>
    decreases evs.len(),
{
    if evs.len() == 0 {
        Ok(initial_model())
    } else {
        match fold_events(evs.drop_last()) {
            Err(e) => Err(e),
            Ok(st) => xml_step(st, evs.last()),
        }
    }
}

/// The layout a run of events defines: at least one channel is required.
pub open spec fn events_result(evs: Seq<XmlEventModel>) -> Result<Seq<FieldModel>, TelemetryError> {
    match fold_events(evs) {
        Err(e) => Err(e),
        Ok(st) => if st.fields.len() == 0 {
            Err(TelemetryError::NoFields)
        } else {
            Ok(st.fields)
        },
    }
}

/// The reading state of a definition document.
pub struct XmlState {
    pub fields: Vec<FieldSpec>,
    pub active: Option<PendingField>,
    pub in_field_depth: Option<usize>,
    pub active_child: Option<ChildTag>,
    pub depth: usize,
}

impl View for XmlState {
    type V = XmlModel;

    open spec fn view(&self) -> XmlModel {
        XmlModel {
            fields: fields_view(self.fields@),
            active: match self.active {
                Some(p) => Some(p@),
                None => None,
            },
            in_field_depth: self.in_field_depth,
            active_child: self.active_child,
            depth: self.depth,
        }
    }
}

impl XmlState {
    pub fn new() -> (r: Self)
        ensures
            r@ == initial_model(),
    {
        let r = XmlState { fields: Vec::new(), active: None, in_field_depth: None, active_child: None, depth: 0 };
        assert(r@.fields =~= Seq::<FieldModel>::empty());
        r
    }

    fn push_field(&mut self, f: FieldSpec)
        ensures
            final(self)@ == (XmlModel { fields: old(self)@.fields.push(f@), ..old(self)@ }),
    {
        self.fields.push(f);
        assert(fields_view(self.fields@) =~= fields_view(old(self).fields@).push(f@));
    }

    /// Apply one event.
    pub fn step(&mut self, ev: &XmlEvent) -> (r: Result<(), TelemetryError>)
        ensures
            match xml_step(old(self)@, ev@) {
                Ok(st) => r is Ok && final(self)@ == st,
                Err(e) => r == Err::<(), TelemetryError>(e),
            },
    {
        match ev {
            XmlEvent::Start { name, attributes } => {
                let depth = if self.depth == usize::MAX { self.depth } else { self.depth + 1 };
                if is_field_tag_exec(name.as_slice()) {
                    match attributes {
                        None => return Err(TelemetryError::XmlSyntax),
                        Some(a) => {
                            let f = pending_from_attributes(a);
                            if f.channel.is_some() && f.field_type.is_some() {
                                self.push_field(complete_field(f));
                            } else {
                                self.active = Some(f);
                                self.in_field_depth = Some(depth);
                            }
                        },
                    }
                } else if self.active.is_some() {
                    let c = child_of_exec(name.as_slice());
                    if c.is_some() {
                        self.active_child = c;
                    }
                }
                self.depth = depth;
                Ok(())
            },
            XmlEvent::Empty { name, attributes } => {
                if is_field_tag_exec(name.as_slice()) {
                    match attributes {
                        None => Err(TelemetryError::XmlSyntax),
                        Some(a) => {
                            let f = finalize_field(pending_from_attributes(a))?;
                            self.push_field(f);
                            Ok(())
                        },
                    }
                } else {
                    Ok(())
                }
            },
            XmlEvent::Text(t) => {
                if self.active.is_some() && self.active_child.is_some() {
                    let v = text_value_exec(t.as_slice());
                    if v.as_str().unicode_len() > 0 {
                        let child = self.active_child.unwrap();
                        let mut p = self.active.take().unwrap();
                        match child {
                            ChildTag::Name => p.pending_name = Some(v),
                            ChildTag::Type => p.field_type = FieldType::parse(v.as_str()),
                            ChildTag::Scale => p.scale_text = Some(v),
                            ChildTag::FourCC => p.fourcc_text = Some(v),
                        }
                        self.active = Some(p);
                    }
                }
                Ok(())
            },
            XmlEvent::End(name) => {
                if child_of_exec(name.as_slice()).is_some() {
                    self.active_child = None;
                }
                if is_field_tag_exec(name.as_slice()) {
                    if self.in_field_depth == Some(self.depth) && self.active.is_some() {
                        let p = self.active.take().unwrap();
                        let f = finalize_field(p)?;
                        self.push_field(f);
                    }
                    self.in_field_depth = None;
                }
                if self.in_field_depth == Some(self.depth) {
                    self.in_field_depth = None;
                }
                self.depth = if self.depth == 0 { 0 } else { self.depth - 1 };
                Ok(())
            },
            XmlEvent::Eof => Ok(()),
            XmlEvent::Other => Ok(()),
        }
    }

    /// The layout read so far: at least one channel is required.
    pub fn finish(self) -> (r: Result<CustomUdpSpec, TelemetryError>)
        ensures
            self@.fields.len() == 0 ==> r == Err::<CustomUdpSpec, TelemetryError>(TelemetryError::NoFields),
            self@.fields.len() > 0 ==> (r matches Ok(s) && s@ == self@.fields),
    {
        if self.fields.len() == 0 {
            Err(TelemetryError::NoFields)
        } else {
            Ok(CustomUdpSpec { fields: self.fields })
        }
    }
}

/// The channel layout a run of XML events defines.
pub fn spec_from_xml_events(events: &[XmlEvent]) -> (r: Result<CustomUdpSpec, TelemetryError>)
    ensures
        match events_result(events@.map_values(|e: XmlEvent| e@)) {
            Ok(fs) => r matches Ok(s) && s@ == fs,
            Err(e) => r matches Err(x) && x == e,
        },
{
    let ghost evs = events@.map_values(|e: XmlEvent| e@);
    let mut st = XmlState::new();
    let mut i: usize = 0;
    assert(evs.subrange(0, 0) =~= Seq::<XmlEventModel>::empty());
    while i < events.len()
        invariant
            evs == events@.map_values(|e: XmlEvent| e@),
            0 <= i <= events@.len(),
            fold_events(evs.subrange(0, i as int)) == Ok::<XmlModel, TelemetryError>(st@),
        decreases events@.len() - i,
    {
        assert(evs.subrange(0, i + 1).drop_last() =~= evs.subrange(0, i as int));
        assert(evs.subrange(0, i + 1).last() == events@[i as int]@);
        match st.step(&events[i]) {
            Ok(()) => {},
            Err(e) => {
                proof {
                    lemma_fold_error_sticks(evs, i + 1);
                }
                return Err(e);
            },
        }
        i = i + 1;
    }
    assert(evs.subrange(0, events@.len() as int) =~= evs);
    st.finish()
}

/// An error in a prefix of the events is the error of the whole run.
proof fn lemma_fold_error_sticks(evs: Seq<XmlEventModel>, k: int)
    requires
        0 <= k <= evs.len(),
        fold_events(evs.subrange(0, k)) is Err,
    ensures
        fold_events(evs) == fold_events(evs.subrange(0, k)),
    decreases evs.len() - k,
{
    if k < evs.len() {
        assert(evs.subrange(0, k + 1).drop_last() =~= evs.subrange(0, k));
        lemma_fold_error_sticks(evs, k + 1);
    } else {
        assert(evs.subrange(0, k) =~= evs);
    }
}

// ── Reading a document with quick-xml ────────────────────────────────────────

#[verifier::external_type_specification]
#[verifier::external_body]
#[verifier::reject_recursive_types(R)]
pub struct ExXmlReader<R>(Reader<R>);

#[verifier::external_type_specification]
#[verifier::external_body]
pub struct ExAttributes<'a>(Attributes<'a>);

#[verifier::external_type_specification]
#[verifier::external_body]
pub struct ExAttribute<'a>(Attribute<'a>);

#[verifier::external_type_specification]
#[verifier::external_body]
pub struct ExAttrError(AttrError);

/// An event as quick-xml reports it, by its bytes: a start or empty tag as
/// its whole content (name, then attributes) and the length of its name, a
/// text as its raw (still escaped) bytes, an end tag as its name.
pub enum RawXmlEvent {
    Start { content: Vec<u8>, name_len: usize },
    Empty { content: Vec<u8>, name_len: usize },
    Text(Vec<u8>),
    End(Vec<u8>),
    Eof,
    Other,
}

/// What one `Reader::read_event` call gives, by plain values; `Error` is a
/// syntax error.
pub enum XmlToken {
    Start(Seq<u8>, nat),
    Empty(Seq<u8>, nat),
    Text(Seq<u8>),
    End(Seq<u8>),
    Eof,
    Other,
    Error,
}

pub open spec fn token_of(r: Result<RawXmlEvent, TelemetryError>) -> XmlToken {
    match r {
        Ok(RawXmlEvent::Start { content, name_len }) => XmlToken::Start(content@, name_len as nat),
        Ok(RawXmlEvent::Empty { content, name_len }) => XmlToken::Empty(content@, name_len as nat),
        Ok(RawXmlEvent::Text(t)) => XmlToken::Text(t@),
        Ok(RawXmlEvent::End(n)) => XmlToken::End(n@),
        Ok(RawXmlEvent::Eof) => XmlToken::Eof,
        Ok(RawXmlEvent::Other) => XmlToken::Other,
        Err(_) => XmlToken::Error,
    }
}

/// The bytes a quick-xml reader reads from.
pub uninterp spec fn reader_source(r: Reader<&[u8]>) -> Seq<u8>;

/// The reader was made by `Reader::from_str` and neither read from nor
/// configured since.
pub uninterp spec fn reader_fresh(r: Reader<&[u8]>) -> bool;

/// The events a reader yields from its current state on: entry `k` is what
/// the `k`-th next `read_event` call gives.
pub uninterp spec fn reader_events(r: Reader<&[u8]>) -> Map<nat, XmlToken>;

/// The events that `Reader::from_str` over `source`, with whitespace around
/// text trimmed (`trim_text(true)`), yields from the start: entry `k` is
/// what the `k`-th `read_event` call gives.
pub uninterp spec fn xml_document_events(source: Seq<u8>) -> Map<nat, XmlToken>;

/// The attribute bytes and start position an attribute iterator was made with.
pub uninterp spec fn attributes_source(a: Attributes) -> (Seq<u8>, nat);

/// The attribute iterator was made by `Attributes::new` and neither advanced
/// nor configured since.
pub uninterp spec fn attributes_fresh(a: Attributes) -> bool;

/// What an attribute iterator yields from its current state on: entry `k`
/// is what the `k`-th next `next` call gives, key and raw value as bytes
/// (`Err` for a malformed attribute).
pub uninterp spec fn attributes_pending(a: Attributes) -> Map<nat, Option<Result<(Seq<u8>, Seq<u8>), TelemetryError>>>;

/// What `Attributes::new` over `bytes` from `start`, with duplicate checks
/// off (`with_checks(false)`), yields: entry `k` is what the `k`-th `next`
/// call gives (a malformed attribute as `Err(XmlSyntax)`).
pub uninterp spec fn xml_attribute_stream(bytes: Seq<u8>, start: nat) -> Map<nat, Option<Result<(Seq<u8>, Seq<u8>), TelemetryError>>>;

/// Every entry of `m` is the entry of `n` `k` places further on.
pub open spec fn shifted_by<V>(m: Map<nat, V>, n: Map<nat, V>, k: nat) -> bool {
    forall|j: nat| #[trigger] m[j] == n[j + k]
}

/// A quick-xml reader over `raw` (`Reader::from_str`).
#[verifier::external_body]
fn xml_reader(raw: &str) -> (r: Reader<&[u8]>)
    ensures
        reader_source(r) == raw.spec_bytes(),
        reader_fresh(r),
{
    Reader::from_str(raw)
}

/// Makes a fresh reader drop whitespace around text (`Config::trim_text(true)`
/// on the reader's configuration): it then yields the document's events.
#[verifier::external_body]
fn trim_text(reader: &mut Reader<&[u8]>)
    requires
        reader_fresh(*old(reader)),
    ensures
        reader_events(*final(reader)) == xml_document_events(reader_source(*old(reader))),
{
    reader.config_mut().trim_text(true);
}

/// The next event of the document (`Reader::read_event`), by its bytes; a
/// syntax error reads as `XmlSyntax`. A tag's name is a prefix of its
/// content.
#[verifier::external_body]
fn read_event(reader: &mut Reader<&[u8]>) -> (r: Result<RawXmlEvent, TelemetryError>)
    ensures
        token_of(r) == reader_events(*old(reader))[0],
        shifted_by(reader_events(*final(reader)), reader_events(*old(reader)), 1),
        r matches Err(e) ==> e == TelemetryError::XmlSyntax,
        r matches Ok(RawXmlEvent::Start { content, name_len }) ==> name_len <= content@.len(),
        r matches Ok(RawXmlEvent::Empty { content, name_len }) ==> name_len <= content@.len(),
{
    match reader.read_event() {
        Ok(Event::Start(e)) => Ok(RawXmlEvent::Start { content: e.to_vec(), name_len: e.name().as_ref().len() }),
        Ok(Event::Empty(e)) => Ok(RawXmlEvent::Empty { content: e.to_vec(), name_len: e.name().as_ref().len() }),
        Ok(Event::Text(t)) => Ok(RawXmlEvent::Text(t.to_vec())),
        Ok(Event::End(e)) => Ok(RawXmlEvent::End(e.name().as_ref().to_vec())),
        Ok(Event::Eof) => Ok(RawXmlEvent::Eof),
        Ok(_) => Ok(RawXmlEvent::Other),
        Err(_) => Err(TelemetryError::XmlSyntax),
    }
}

/// An attribute iterator over `text` from byte `start` (`Attributes::new`).
#[verifier::external_body]
fn attributes_from(text: &str, start: usize) -> (r: Attributes)
    requires
        start <= text.spec_bytes().len(),
    ensures
        attributes_source(r) == (text.spec_bytes(), start as nat),
        attributes_fresh(r),
{
    Attributes::new(text, start)
}

/// Lets duplicate attribute names through (`Attributes::with_checks(false)`)
/// on a fresh iterator, which then yields the attribute stream.
#[verifier::external_body]
fn without_checks(a: &mut Attributes)
    requires
        attributes_fresh(*old(a)),
    ensures
        attributes_pending(*final(a)) == xml_attribute_stream(attributes_source(*old(a)).0, attributes_source(*old(a)).1),
{
    a.with_checks(false);
}

/// The next attribute (`Attributes::next`), key and raw value as bytes; a
/// malformed attribute reads as `XmlSyntax`.
#[verifier::external_body]
fn next_attribute(a: &mut Attributes) -> (r: Option<Result<XmlAttribute, TelemetryError>>)
    ensures
        (match r {
            None => None,
            Some(Ok(x)) => Some(Ok(x@)),
            Some(Err(e)) => Some(Err(e)),
        }) == attributes_pending(*old(a))[0],
        shifted_by(attributes_pending(*final(a)), attributes_pending(*old(a)), 1),
        r matches Some(Err(e)) ==> e == TelemetryError::XmlSyntax,
{
    match a.next() {
        None => None,
        Some(Ok(attr)) => Some(Ok(XmlAttribute { key: attr.key.as_ref().to_vec(), value: attr.value.to_vec() })),
        Some(Err(_)) => Some(Err(TelemetryError::XmlSyntax)),
    }
}

/// The attributes an attribute stream lists, read from entry `i` on with at
/// most `remaining` more reads, after `acc`: `None` when one is malformed or
/// the reads run out before the stream ends.
pub open spec fn collect_stream(
    stream: Map<nat, Option<Result<(Seq<u8>, Seq<u8>), TelemetryError>>>,
    i: nat,
    remaining: nat,
    acc: Seq<(Seq<u8>, Seq<u8>)>,
) -> Option<Seq<(Seq<u8>, Seq<u8>)>>
    decreases remaining,
{
    if remaining == 0 {
        None
    } else {
        match stream[i] {
            None => Some(acc),
            Some(Err(_)) => None,
            Some(Ok(a)) => collect_stream(stream, i + 1, (remaining - 1) as nat, acc.push(a)),
        }
    }
}

/// The attributes of a tag whose content is `content` and whose name takes
/// its first `name_len` bytes: `None` when they are malformed, when the
/// content is not UTF-8, or past `bound` attributes.
pub open spec fn tag_attributes(content: Seq<u8>, name_len: nat, bound: nat) -> Option<Seq<(Seq<u8>, Seq<u8>)>> {
    if valid_utf8(content) {
        collect_stream(xml_attribute_stream(content, name_len), 0, bound + 1, Seq::empty())
    } else {
        None
    }
}

/// The attributes of a tag (see [`tag_attributes`]). No element of a
/// document of `bound` bytes has more than `bound` attributes; past that
/// many the list is treated as malformed.
fn collect_attributes(content: &[u8], name_len: usize, bound: usize) -> (r: Option<Vec<XmlAttribute>>)
    requires
        name_len <= content@.len(),
    ensures
        attrs_view(r) == tag_attributes(content@, name_len as nat, bound as nat),
        r matches Some(v) ==> v@.len() <= bound,
{
    let text = match crate::acc_reader::string_from_utf8(vstd::slice::slice_to_vec(content)) {
        Some(t) => t,
        None => return None,
    };
    proof {
        vstd::utf8::decode_utf8_encode_utf8(content@);
    }
    let text_str = text.as_str();
    assert(text_str.spec_bytes() == content@);
    let mut attrs = attributes_from(text_str, name_len);
    without_checks(&mut attrs);
    let ghost stream = xml_attribute_stream(content@, name_len as nat);
    let mut out: Vec<XmlAttribute> = Vec::new();
    let limit: u128 = bound as u128 + 1;
    let mut k: u128 = 0;
    proof {
        let p = attributes_pending(attrs);
        assert forall|j: nat| #[trigger] p[j] == stream[j + 0nat] by {
            assert(j + 0nat == j);
        }
        assert(out@.map_values(|x: XmlAttribute| x@) =~= Seq::<(Seq<u8>, Seq<u8>)>::empty());
    }
    while k < limit
        invariant
            limit == bound as u128 + 1,
            k <= limit,
            out@.len() == k,
            valid_utf8(content@),
            stream == xml_attribute_stream(content@, name_len as nat),
            shifted_by(attributes_pending(attrs), stream, k as nat),
            collect_stream(stream, 0, limit as nat, Seq::empty()) == collect_stream(
                stream,
                k as nat,
                (limit - k) as nat,
                out@.map_values(|x: XmlAttribute| x@),
            ),
        decreases limit - k,
    {
        let ghost before = out@.map_values(|x: XmlAttribute| x@);
        let ghost before_p = attributes_pending(attrs);
        assert(before_p[0] == stream[(0 + k) as nat]);
        let ghost acc = out@.map_values(|x: XmlAttribute| x@);
        match next_attribute(&mut attrs) {
            None => {
                proof {
                    assert(stream[k as nat] is None);
                    assert(collect_stream(stream, k as nat, (limit - k) as nat, acc) == Some(acc));
                    assert(valid_utf8(content@));
                    assert(limit as nat == bound as nat + 1);
                }
                return Some(out);
            },
            Some(Ok(a)) => {
                out.push(a);
                proof {
                    assert(out@.map_values(|x: XmlAttribute| x@) =~= before.push(a@));
                }
            },
            Some(Err(_)) => {
                proof {
                    assert(stream[k as nat] is Some && stream[k as nat]->0 is Err);
                    assert(collect_stream(stream, k as nat, (limit - k) as nat, acc) is None);
                    assert(valid_utf8(content@));
                    assert(limit as nat == bound as nat + 1);
                }
                return None;
            },
        }
        proof {
            let p = attributes_pending(attrs);
            assert forall|j: nat| #[trigger] p[j] == stream[j + (k + 1) as nat] by {
                assert(p[j] == before_p[j + 1]);
                assert(before_p[j + 1] == stream[(j + 1) + k as nat]);
                assert((j + 1) + k as nat == j + (k + 1) as nat);
            }
        }
        k = k + 1;
    }
    None
}

/// The event a token stands for in a document of `bound` bytes (an error
/// token stands for none).
pub open spec fn event_of_token(t: XmlToken, bound: nat) -> XmlEventModel {
    match t {
        XmlToken::Start(content, n) => XmlEventModel::Start(content.subrange(0, n as int), tag_attributes(content, n, bound)),
        XmlToken::Empty(content, n) => XmlEventModel::Empty(content.subrange(0, n as int), tag_attributes(content, n, bound)),
        XmlToken::Text(t) => XmlEventModel::Text(t),
        XmlToken::End(n) => XmlEventModel::End(n),
        XmlToken::Eof => XmlEventModel::Eof,
        _ => XmlEventModel::Other,
    }
}

/// The event a quick-xml event stands for.
fn convert_event(ev: RawXmlEvent, bound: usize) -> (r: XmlEvent)
    requires
        ev matches RawXmlEvent::Start { content, name_len } ==> name_len <= content@.len(),
        ev matches RawXmlEvent::Empty { content, name_len } ==> name_len <= content@.len(),
    ensures
        r@ == event_of_token(token_of(Ok::<RawXmlEvent, TelemetryError>(ev)), bound as nat),
{
    match ev {
        RawXmlEvent::Start { content, name_len } => {
            let name = vstd::slice::slice_to_vec(&content.as_slice()[0..name_len]);
            let attributes = collect_attributes(content.as_slice(), name_len, bound);
            assert(name@ =~= content@.subrange(0, name_len as int));
            XmlEvent::Start { name, attributes }
        },
        RawXmlEvent::Empty { content, name_len } => {
            let name = vstd::slice::slice_to_vec(&content.as_slice()[0..name_len]);
            let attributes = collect_attributes(content.as_slice(), name_len, bound);
            assert(name@ =~= content@.subrange(0, name_len as int));
            XmlEvent::Empty { name, attributes }
        },
        RawXmlEvent::Text(t) => XmlEvent::Text(t),
        RawXmlEvent::End(n) => XmlEvent::End(n),
        RawXmlEvent::Eof => XmlEvent::Eof,
        RawXmlEvent::Other => XmlEvent::Other,
    }
}

/// The layout a reading state ends in.
pub open spec fn finished(st: XmlModel) -> Result<Seq<FieldModel>, TelemetryError> {
    if st.fields.len() == 0 {
        Err(TelemetryError::NoFields)
    } else {
        Ok(st.fields)
    }
}

/// Reading a document's events from entry `k` on, in state `st`, with at
/// most `fuel` more events: an error event is `XmlSyntax`, the end of the
/// document finishes the layout, and running out of events is `XmlSyntax`.
pub open spec fn run_document(
    events: Map<nat, XmlToken>,
    bound: nat,
    k: nat,
    fuel: nat,
    st: XmlModel,
) -> Result<Seq<FieldModel>, TelemetryError>
    decreases fuel,
{
    if fuel == 0 {
        Err(TelemetryError::XmlSyntax)
    } else {
        match events[k] {
            XmlToken::Error => Err(TelemetryError::XmlSyntax),
            XmlToken::Eof => finished(st),
            t => match xml_step(st, event_of_token(t, bound)) {
                Err(e) => Err(e),
                Ok(next) => run_document(events, bound, k + 1, (fuel - 1) as nat, next),
            },
        }
    }
}

/// The layout a channel-definition document of `source` bytes defines: its
/// events read by the layout rules from the start, with at most one event
/// per byte and one more.
pub open spec fn custom_udp_layout(source: Seq<u8>) -> Result<Seq<FieldModel>, TelemetryError> {
    run_document(xml_document_events(source), source.len(), 0, source.len() + 1, initial_model())
}

/// The view of a parse outcome: the channel models of a layout, or the error.
pub open spec fn spec_result_view(r: Result<CustomUdpSpec, TelemetryError>) -> Result<Seq<FieldModel>, TelemetryError> {
    match r {
        Ok(s) => Ok(s@),
        Err(e) => Err(e),
    }
}

/// Parse a custom UDP channel definition: the document's events, as
/// quick-xml reads them with text trimmed, go through the layout rules
/// ([`xml_step`]) up to its end; a syntax error is `XmlSyntax`, and a
/// document without channels is `NoFields`. A document of `n` bytes reads as
/// at most `n + 1` events before its end.
pub fn parse_custom_udp_xml(raw: &str) -> (r: Result<CustomUdpSpec, TelemetryError>)
    ensures
        spec_result_view(r) == custom_udp_layout(raw.spec_bytes()),
        r matches Ok(s) ==> s@.len() > 0,
{
    let mut reader = xml_reader(raw);
    trim_text(&mut reader);
    let ghost events = xml_document_events(raw.spec_bytes());
    let bound = raw.as_bytes().len();
    let limit: u128 = bound as u128 + 1;
    let mut st = XmlState::new();
    let mut k: u128 = 0;
    proof {
        let p = reader_events(reader);
        assert forall|j: nat| #[trigger] p[j] == events[j + 0nat] by {
            assert(j + 0nat == j);
        }
        assert((limit - k) as nat == raw.spec_bytes().len() + 1);
    }
    while k < limit
        invariant
            limit == bound as u128 + 1,
            bound == raw.spec_bytes().len(),
            events == xml_document_events(raw.spec_bytes()),
            k <= limit,
            shifted_by(reader_events(reader), events, k as nat),
            custom_udp_layout(raw.spec_bytes()) == run_document(events, bound as nat, k as nat, (limit - k) as nat, st@),
        decreases limit - k,
    {
        let ghost before_r = reader_events(reader);
        assert(before_r[0] == events[(0 + k) as nat]);
        let raw_ev = match read_event(&mut reader) {
            Ok(v) => v,
            Err(e) => {
                return Err(e);
            },
        };
        let ghost tok = token_of(Ok::<RawXmlEvent, TelemetryError>(raw_ev));
        assert(tok == events[k as nat]);
        let ev = convert_event(raw_ev, bound);
        if ev.is_eof() {
            return st.finish();
        }
        match st.step(&ev) {
            Ok(()) => {},
            Err(e) => {
                return Err(e);
            },
        }
        proof {
            let p = reader_events(reader);
            assert forall|j: nat| #[trigger] p[j] == events[j + (k + 1) as nat] by {
                assert(p[j] == before_r[j + 1]);
                assert(before_r[j + 1] == events[(j + 1) + k as nat]);
                assert((j + 1) + k as nat == j + (k + 1) as nat);
            }
        }
        k = k + 1;
    }
    Err(TelemetryError::XmlSyntax)
}

} // verus!
