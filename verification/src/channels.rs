//! Meta data for dealing with input / output channels. Not all hosts use this
//! so it is not necessary for plugin functionality.

use crate::api;
use crate::api::{CHANNEL_FLAG_ACTIVE, CHANNEL_FLAG_SPEAKER, CHANNEL_FLAG_STEREO, MAX_LABEL, MAX_SHORT_LABEL};
use vstd::prelude::*;
use vstd::utf8::encode_utf8;

verus! {

/// A label of `width` bytes: the leading bytes of `bytes`, zero-padded.
pub open spec fn padded_label(bytes: Seq<u8>, width: nat) -> Seq<u8> {
    Seq::new(
        width,
        |i: int|
            if i < bytes.len() {
                bytes[i]
            } else {
                0u8
            },
    )
}

/// Information about an input / output channel. This isn't necessary for a
/// channel to function but informs the host how the channel is meant to be
/// used.
pub struct ChannelInfo {
    name: String,
    short_name: String,
    active: bool,
    arrangement_type: SpeakerArrangementType,
}

impl ChannelInfo {
    /// The user friendly name of the channel.
    pub closed spec fn name_spec(self) -> Seq<char> {
        self.name@
    }

    /// The short name of the channel.
    pub closed spec fn short_name_spec(self) -> Seq<char> {
        self.short_name@
    }

    /// Whether the channel is active.
    pub closed spec fn active_spec(self) -> bool {
        self.active
    }

    /// The arrangement type of the channel.
    pub closed spec fn arrangement_type_spec(self) -> SpeakerArrangementType {
        self.arrangement_type
    }

    /// Construct a new `ChannelInfo` object.
    ///
    /// `name` is a user friendly name for this channel limited to
    /// `MAX_LABEL` bytes. `short_name` is an optional field which provides
    /// a short name limited to `MAX_SHORT_LABEL`; when absent, `name` is
    /// used. `active` determines whether this channel is active.
    /// `arrangement_type` describes the arrangement type for this channel;
    /// when absent, `Custom` is used.
    pub fn new(
        name: String,
        short_name: Option<String>,
        active: bool,
        arrangement_type: Option<SpeakerArrangementType>,
    ) -> (r: ChannelInfo)
        ensures
            r.name_spec() == name@,
            r.short_name_spec() == match short_name {
                Some(s) => s@,
                None => name@,
            },
            r.active_spec() == active,
            r.arrangement_type_spec() == match arrangement_type {
                Some(t) => t,
                None => SpeakerArrangementType::Custom,
            },
    {
        ChannelInfo {
            name: name.clone(),
            short_name: if let Some(short_name) = short_name {
                short_name
            } else {
                name
            },
            active,
            arrangement_type: arrangement_type.unwrap_or(SpeakerArrangementType::Custom),
        }
    }

    /// The channel flags this channel reports to the host.
    pub open spec fn spec_flags(self) -> i32 {
        (if self.active_spec() {
            CHANNEL_FLAG_ACTIVE
        } else {
            0i32
        }) | (if self.arrangement_type_spec().is_left_stereo_spec() {
            CHANNEL_FLAG_STEREO
        } else {
            0i32
        }) | (if self.arrangement_type_spec().is_speaker_type_spec() {
            CHANNEL_FLAG_SPEAKER
        } else {
            0i32
        })
    }

    /// Convert to the VST API equivalent of this structure: the names
    /// become zero-padded byte labels, the flags carry the active bit and
    /// the stereo/speaker classification of the arrangement type.
    pub fn into_properties(self) -> (r: api::ChannelProperties)
        ensures
            r.name@ == padded_label(encode_utf8(self.name_spec()), MAX_LABEL as nat),
            r.short_name@ == padded_label(
                encode_utf8(self.short_name_spec()),
                MAX_SHORT_LABEL as nat,
            ),
            r.flags == self.spec_flags(),
            r.arrangement_type == self.arrangement_type_spec().spec_into_api(),
            r.future@ == Seq::new(48nat, |i: int| 0u8),
    {
        let is_left = self.arrangement_type.is_left_stereo();
        let is_speaker = self.arrangement_type.is_speaker_type();
        api::ChannelProperties {
            name: write_label(&self.name, MAX_LABEL),
            flags: {
                let active_flag: i32 = if self.active {
                    CHANNEL_FLAG_ACTIVE
                } else {
                    0
                };
                let stereo_flag: i32 = if is_left {
                    CHANNEL_FLAG_STEREO
                } else {
                    0
                };
                let speaker_flag: i32 = if is_speaker {
                    CHANNEL_FLAG_SPEAKER
                } else {
                    0
                };
                active_flag | stereo_flag | speaker_flag
            },
            arrangement_type: self.arrangement_type.into_api(),
            short_name: write_label(&self.short_name, MAX_SHORT_LABEL),
            future: zero_bytes(48),
        }
    }
}

/// What lossy UTF-8 decoding makes of the given bytes. The result depends
/// on the bytes alone.
pub uninterp spec fn lossy_utf8(b: Seq<u8>) -> Seq<char>;

/// Relies on `String::from_utf8_lossy`: decode the given bytes, replacing
/// invalid sequences; the result depends on the bytes alone.
#[verifier::external_body]
fn from_utf8_lossy(b: &[u8]) -> (r: String)
    ensures
        r@ == lossy_utf8(b@),
{
    String::from_utf8_lossy(b).into_owned()
}

impl ChannelInfo {
    /// Read channel information back out of the VST API structure: the
    /// labels are decoded as lossy UTF-8 (padding bytes included), the
    /// active bit comes from the flags and the arrangement is read as
    /// [`SpeakerArrangementType::spec_from_properties`] states. Flags with
    /// unknown bits describe no valid channel and are excluded here.
    pub fn from_properties(p: api::ChannelProperties) -> (r: ChannelInfo)
        requires
            p.flags & !(CHANNEL_FLAG_ACTIVE | CHANNEL_FLAG_STEREO | CHANNEL_FLAG_SPEAKER) == 0,
        ensures
            r.name_spec() == lossy_utf8(p.name@),
            r.short_name_spec() == lossy_utf8(p.short_name@),
            r.active_spec() == (p.flags & CHANNEL_FLAG_ACTIVE != 0),
            r.arrangement_type_spec() == SpeakerArrangementType::spec_from_properties(p),
    {
        let name = from_utf8_lossy(p.name.as_slice());
        let short_name = from_utf8_lossy(p.short_name.as_slice());
        let active = p.flags & CHANNEL_FLAG_ACTIVE != 0;
        let arrangement_type = SpeakerArrangementType::from_properties(p);
        ChannelInfo { name, short_name, active, arrangement_type }
    }
}

/// The leading `width` bytes of `s` as a zero-padded label.
fn write_label(s: &String, width: usize) -> (r: Vec<u8>)
    ensures
        r@ == padded_label(encode_utf8(s@), width as nat),
{
    let bytes = s.as_str().as_bytes();
    let mut r: Vec<u8> = Vec::new();
    let mut i: usize = 0;
    while i < width
        invariant
            i <= width,
            r@ == padded_label(encode_utf8(s@), i as nat),
            bytes@ == encode_utf8(s@),
        decreases width - i,
    {
        if i < bytes.len() {
            r.push(bytes[i]);
        } else {
            r.push(0);
        }
        assert(r@ =~= padded_label(encode_utf8(s@), (i + 1) as nat));
        i = i + 1;
    }
    r
}

/// A vector of `width` zero bytes.
fn zero_bytes(width: usize) -> (r: Vec<u8>)
    ensures
        r@ == Seq::new(width as nat, |i: int| 0u8),
{
    let mut r: Vec<u8> = Vec::new();
    let mut i: usize = 0;
    while i < width
        invariant
            i <= width,
            r@ == Seq::new(i as nat, |j: int| 0u8),
        decreases width - i,
    {
        r.push(0);
        assert(r@ =~= Seq::new((i + 1) as nat, |j: int| 0u8));
        i = i + 1;
    }
    r
}

/// Target for Speaker arrangement type. Can be a cinema configuration or
/// music configuration. Both are technically identical but this provides
/// extra information to the host.
#[derive(Clone, Copy, Debug, PartialEq, Eq, Structural)]
pub enum ArrangementTarget {
    /// Music arrangement. Technically identical to Cinema.
    Music,
    /// Cinematic arrangement. Technically identical to Music.
    Cinema,
}

/// An enum for all channels in a stereo configuration.
#[derive(Clone, Copy, Debug, PartialEq, Eq, Structural)]
pub enum StereoChannel {
    /// Left channel.
    Left,
    /// Right channel.
    Right,
}

/// Possible stereo speaker configurations.
#[allow(non_camel_case_types)]
#[derive(Clone, Copy, Debug, PartialEq, Eq, Structural)]
pub enum StereoConfig {
    /// Regular.
    L_R,
    /// Left surround, right surround.
    Ls_Rs,
    /// Left center, right center.
    Lc_Rc,
    /// Side left, side right.
    Sl_Sr,
    /// Center, low frequency effects.
    C_Lfe,
}

/// Possible surround speaker configurations.
#[allow(non_camel_case_types)]
#[derive(Clone, Copy, Debug, PartialEq, Eq, Structural)]
pub enum SurroundConfig {
    /// 3.0 surround sound. Cinema: L R C. Music: L R S.
    S3_0(ArrangementTarget),
    /// 3.1 surround sound. Cinema: L R C Lfe. Music: L R Lfe S.
    S3_1(ArrangementTarget),
    /// 4.0 surround sound. Cinema: L R C S (LCRS). Music: L R Ls Rs (Quadro).
    S4_0(ArrangementTarget),
    /// 4.1 surround sound. Cinema: L R C Lfe S. Music: L R Ls Rs + Lfe.
    S4_1(ArrangementTarget),
    /// 5.0 surround sound. Cinema and music: L R C Ls Rs.
    S5_0,
    /// 5.1 surround sound. Cinema and music: L R C Lfe Ls Rs.
    S5_1,
    /// 6.0 surround sound. Cinema: L R C Ls Rs Cs. Music: L R Ls Rs Sl Sr.
    S6_0(ArrangementTarget),
    /// 6.1 surround sound. Cinema: L R C Lfe Ls Rs Cs. Music: L R Ls Rs Sl Sr.
    S6_1(ArrangementTarget),
    /// 7.0 surround sound. Cinema: L R C Ls Rs Lc Rc. Music: L R C Ls Rs Sl Sr.
    S7_0(ArrangementTarget),
    /// 7.1 surround sound. Cinema: L R C Lfe Ls Rs Lc Rc. Music: L R C Lfe Ls Rs Sl Sr.
    S7_1(ArrangementTarget),
    /// 8.0 surround sound. Cinema: L R C Ls Rs Lc Rc Cs. Music: L R C Ls Rs Cs Sl Sr.
    S8_0(ArrangementTarget),
    /// 8.1 surround sound. Cinema: L R C Lfe Ls Rs Lc Rc Cs. Music: L R C Lfe Ls Rs Cs Sl Sr.
    S8_1(ArrangementTarget),
    /// 10.2 surround sound. Cinema + Music: L R C Lfe Ls Rs Tfl Tfc Tfr Trl Trr Lfe2.
    S10_2,
}

/// Type representing how a channel is used. Only useful for some hosts.
#[derive(Clone, Copy, Debug, PartialEq, Eq, Structural)]
pub enum SpeakerArrangementType {
    /// Custom arrangement not specified to host.
    Custom,
    /// Empty arrangement.
    Empty,
    /// Mono channel.
    Mono,
    /// Stereo channel. Contains type of stereo arrangement and speaker
    /// represented.
    Stereo(StereoConfig, StereoChannel),
    /// Surround channel. Contains surround arrangement and target (cinema
    /// or music).
    Surround(SurroundConfig),
}

impl Default for SpeakerArrangementType {
    /// The default arrangement is a mono channel.
    fn default() -> (r: SpeakerArrangementType)
        ensures
            r == SpeakerArrangementType::Mono,
    {
        SpeakerArrangementType::Mono
    }
}

impl SpeakerArrangementType {
    /// Whether this channel is part of a surround speaker arrangement.
    pub open spec fn is_speaker_type_spec(self) -> bool {
        self is Surround
    }

    /// Whether this channel is the left speaker in a stereo pair.
    pub open spec fn is_left_stereo_spec(self) -> bool {
        match self {
            SpeakerArrangementType::Stereo(_, StereoChannel::Left) => true,
            _ => false,
        }
    }

    /// Determine whether this channel is part of a surround speaker
    /// arrangement.
    pub fn is_speaker_type(&self) -> (r: bool)
        ensures
            r == self.is_speaker_type_spec(),
    {
        if let SpeakerArrangementType::Surround(..) = *self {
            true
        } else {
            false
        }
    }

    /// Determine whether this channel is the left speaker in a stereo pair.
    pub fn is_left_stereo(&self) -> (r: bool)
        ensures
            r == self.is_left_stereo_spec(),
    {
        if let SpeakerArrangementType::Stereo(_, StereoChannel::Left) = *self {
            true
        } else {
            false
        }
    }

    /// The VST API arrangement type this value converts to. The stereo
    /// channel side is not represented there; it travels in the channel
    /// flags instead.
    pub open spec fn spec_into_api(self) -> api::SpeakerArrangementType {
        match self {
            SpeakerArrangementType::Custom => api::SpeakerArrangementType::Custom,
            SpeakerArrangementType::Empty => api::SpeakerArrangementType::Empty,
            SpeakerArrangementType::Mono => api::SpeakerArrangementType::Mono,
            SpeakerArrangementType::Stereo(conf, _) => match conf {
                StereoConfig::L_R => api::SpeakerArrangementType::Stereo,
                StereoConfig::Ls_Rs => api::SpeakerArrangementType::StereoSurround,
                StereoConfig::Lc_Rc => api::SpeakerArrangementType::StereoCenter,
                StereoConfig::Sl_Sr => api::SpeakerArrangementType::StereoSide,
                StereoConfig::C_Lfe => api::SpeakerArrangementType::StereoCLfe,
            },
            SpeakerArrangementType::Surround(conf) => match conf {
                SurroundConfig::S3_0(ArrangementTarget::Music) => api::SpeakerArrangementType::Music30,
                SurroundConfig::S3_0(ArrangementTarget::Cinema) => api::SpeakerArrangementType::Cinema30,
                SurroundConfig::S3_1(ArrangementTarget::Music) => api::SpeakerArrangementType::Music31,
                SurroundConfig::S3_1(ArrangementTarget::Cinema) => api::SpeakerArrangementType::Cinema31,
                SurroundConfig::S4_0(ArrangementTarget::Music) => api::SpeakerArrangementType::Music40,
                SurroundConfig::S4_0(ArrangementTarget::Cinema) => api::SpeakerArrangementType::Cinema40,
                SurroundConfig::S4_1(ArrangementTarget::Music) => api::SpeakerArrangementType::Music41,
                SurroundConfig::S4_1(ArrangementTarget::Cinema) => api::SpeakerArrangementType::Cinema41,
                SurroundConfig::S5_0 => api::SpeakerArrangementType::Surround50,
                SurroundConfig::S5_1 => api::SpeakerArrangementType::Surround51,
                SurroundConfig::S6_0(ArrangementTarget::Music) => api::SpeakerArrangementType::Music60,
                SurroundConfig::S6_0(ArrangementTarget::Cinema) => api::SpeakerArrangementType::Cinema60,
                SurroundConfig::S6_1(ArrangementTarget::Music) => api::SpeakerArrangementType::Music61,
                SurroundConfig::S6_1(ArrangementTarget::Cinema) => api::SpeakerArrangementType::Cinema61,
                SurroundConfig::S7_0(ArrangementTarget::Music) => api::SpeakerArrangementType::Music70,
                SurroundConfig::S7_0(ArrangementTarget::Cinema) => api::SpeakerArrangementType::Cinema70,
                SurroundConfig::S7_1(ArrangementTarget::Music) => api::SpeakerArrangementType::Music71,
                SurroundConfig::S7_1(ArrangementTarget::Cinema) => api::SpeakerArrangementType::Cinema71,
                SurroundConfig::S8_0(ArrangementTarget::Music) => api::SpeakerArrangementType::Music80,
                SurroundConfig::S8_0(ArrangementTarget::Cinema) => api::SpeakerArrangementType::Cinema80,
                SurroundConfig::S8_1(ArrangementTarget::Music) => api::SpeakerArrangementType::Music81,
                SurroundConfig::S8_1(ArrangementTarget::Cinema) => api::SpeakerArrangementType::Cinema81,
                SurroundConfig::S10_2 => api::SpeakerArrangementType::Surround102,
            },
        }
    }

    /// Convert to the VST API arrangement type.
    pub fn into_api(self) -> (r: api::SpeakerArrangementType)
        ensures
            r == self.spec_into_api(),
    {
        match self {
            SpeakerArrangementType::Custom => api::SpeakerArrangementType::Custom,
            SpeakerArrangementType::Empty => api::SpeakerArrangementType::Empty,
            SpeakerArrangementType::Mono => api::SpeakerArrangementType::Mono,
            SpeakerArrangementType::Stereo(conf, _) => match conf {
                StereoConfig::L_R => api::SpeakerArrangementType::Stereo,
                StereoConfig::Ls_Rs => api::SpeakerArrangementType::StereoSurround,
                StereoConfig::Lc_Rc => api::SpeakerArrangementType::StereoCenter,
                StereoConfig::Sl_Sr => api::SpeakerArrangementType::StereoSide,
                StereoConfig::C_Lfe => api::SpeakerArrangementType::StereoCLfe,
            },
            SpeakerArrangementType::Surround(conf) => match conf {
                SurroundConfig::S3_0(ArrangementTarget::Music) => api::SpeakerArrangementType::Music30,
                SurroundConfig::S3_0(ArrangementTarget::Cinema) => api::SpeakerArrangementType::Cinema30,
                SurroundConfig::S3_1(ArrangementTarget::Music) => api::SpeakerArrangementType::Music31,
                SurroundConfig::S3_1(ArrangementTarget::Cinema) => api::SpeakerArrangementType::Cinema31,
                SurroundConfig::S4_0(ArrangementTarget::Music) => api::SpeakerArrangementType::Music40,
                SurroundConfig::S4_0(ArrangementTarget::Cinema) => api::SpeakerArrangementType::Cinema40,
                SurroundConfig::S4_1(ArrangementTarget::Music) => api::SpeakerArrangementType::Music41,
                SurroundConfig::S4_1(ArrangementTarget::Cinema) => api::SpeakerArrangementType::Cinema41,
                SurroundConfig::S5_0 => api::SpeakerArrangementType::Surround50,
                SurroundConfig::S5_1 => api::SpeakerArrangementType::Surround51,
                SurroundConfig::S6_0(ArrangementTarget::Music) => api::SpeakerArrangementType::Music60,
                SurroundConfig::S6_0(ArrangementTarget::Cinema) => api::SpeakerArrangementType::Cinema60,
                SurroundConfig::S6_1(ArrangementTarget::Music) => api::SpeakerArrangementType::Music61,
                SurroundConfig::S6_1(ArrangementTarget::Cinema) => api::SpeakerArrangementType::Cinema61,
                SurroundConfig::S7_0(ArrangementTarget::Music) => api::SpeakerArrangementType::Music70,
                SurroundConfig::S7_0(ArrangementTarget::Cinema) => api::SpeakerArrangementType::Cinema70,
                SurroundConfig::S7_1(ArrangementTarget::Music) => api::SpeakerArrangementType::Music71,
                SurroundConfig::S7_1(ArrangementTarget::Cinema) => api::SpeakerArrangementType::Cinema71,
                SurroundConfig::S8_0(ArrangementTarget::Music) => api::SpeakerArrangementType::Music80,
                SurroundConfig::S8_0(ArrangementTarget::Cinema) => api::SpeakerArrangementType::Cinema80,
                SurroundConfig::S8_1(ArrangementTarget::Music) => api::SpeakerArrangementType::Music81,
                SurroundConfig::S8_1(ArrangementTarget::Cinema) => api::SpeakerArrangementType::Cinema81,
                SurroundConfig::S10_2 => api::SpeakerArrangementType::Surround102,
            },
        }
    }

    /// The arrangement a set of channel properties describes: the API
    /// arrangement type, with the stereo side read back out of the
    /// `STEREO` channel flag.
    pub open spec fn spec_from_properties(p: api::ChannelProperties) -> SpeakerArrangementType {
        let stereo = if p.flags & CHANNEL_FLAG_STEREO != 0 {
            StereoChannel::Left
        } else {
            StereoChannel::Right
        };
        match p.arrangement_type {
            api::SpeakerArrangementType::Custom => SpeakerArrangementType::Custom,
            api::SpeakerArrangementType::Empty => SpeakerArrangementType::Empty,
            api::SpeakerArrangementType::Mono => SpeakerArrangementType::Mono,
            api::SpeakerArrangementType::Stereo => SpeakerArrangementType::Stereo(StereoConfig::L_R, stereo),
            api::SpeakerArrangementType::StereoSurround => SpeakerArrangementType::Stereo(StereoConfig::Ls_Rs, stereo),
            api::SpeakerArrangementType::StereoCenter => SpeakerArrangementType::Stereo(StereoConfig::Lc_Rc, stereo),
            api::SpeakerArrangementType::StereoSide => SpeakerArrangementType::Stereo(StereoConfig::Sl_Sr, stereo),
            api::SpeakerArrangementType::StereoCLfe => SpeakerArrangementType::Stereo(StereoConfig::C_Lfe, stereo),
            api::SpeakerArrangementType::Music30 => SpeakerArrangementType::Surround(SurroundConfig::S3_0(ArrangementTarget::Music)),
            api::SpeakerArrangementType::Cinema30 => SpeakerArrangementType::Surround(SurroundConfig::S3_0(ArrangementTarget::Cinema)),
            api::SpeakerArrangementType::Music31 => SpeakerArrangementType::Surround(SurroundConfig::S3_1(ArrangementTarget::Music)),
            api::SpeakerArrangementType::Cinema31 => SpeakerArrangementType::Surround(SurroundConfig::S3_1(ArrangementTarget::Cinema)),
            api::SpeakerArrangementType::Music40 => SpeakerArrangementType::Surround(SurroundConfig::S4_0(ArrangementTarget::Music)),
            api::SpeakerArrangementType::Cinema40 => SpeakerArrangementType::Surround(SurroundConfig::S4_0(ArrangementTarget::Cinema)),
            api::SpeakerArrangementType::Music41 => SpeakerArrangementType::Surround(SurroundConfig::S4_1(ArrangementTarget::Music)),
            api::SpeakerArrangementType::Cinema41 => SpeakerArrangementType::Surround(SurroundConfig::S4_1(ArrangementTarget::Cinema)),
            api::SpeakerArrangementType::Surround50 => SpeakerArrangementType::Surround(SurroundConfig::S5_0),
            api::SpeakerArrangementType::Surround51 => SpeakerArrangementType::Surround(SurroundConfig::S5_1),
            api::SpeakerArrangementType::Music60 => SpeakerArrangementType::Surround(SurroundConfig::S6_0(ArrangementTarget::Music)),
            api::SpeakerArrangementType::Cinema60 => SpeakerArrangementType::Surround(SurroundConfig::S6_0(ArrangementTarget::Cinema)),
            api::SpeakerArrangementType::Music61 => SpeakerArrangementType::Surround(SurroundConfig::S6_1(ArrangementTarget::Music)),
            api::SpeakerArrangementType::Cinema61 => SpeakerArrangementType::Surround(SurroundConfig::S6_1(ArrangementTarget::Cinema)),
            api::SpeakerArrangementType::Music70 => SpeakerArrangementType::Surround(SurroundConfig::S7_0(ArrangementTarget::Music)),
            api::SpeakerArrangementType::Cinema70 => SpeakerArrangementType::Surround(SurroundConfig::S7_0(ArrangementTarget::Cinema)),
            api::SpeakerArrangementType::Music71 => SpeakerArrangementType::Surround(SurroundConfig::S7_1(ArrangementTarget::Music)),
            api::SpeakerArrangementType::Cinema71 => SpeakerArrangementType::Surround(SurroundConfig::S7_1(ArrangementTarget::Cinema)),
            api::SpeakerArrangementType::Music80 => SpeakerArrangementType::Surround(SurroundConfig::S8_0(ArrangementTarget::Music)),
            api::SpeakerArrangementType::Cinema80 => SpeakerArrangementType::Surround(SurroundConfig::S8_0(ArrangementTarget::Cinema)),
            api::SpeakerArrangementType::Music81 => SpeakerArrangementType::Surround(SurroundConfig::S8_1(ArrangementTarget::Music)),
            api::SpeakerArrangementType::Cinema81 => SpeakerArrangementType::Surround(SurroundConfig::S8_1(ArrangementTarget::Cinema)),
            api::SpeakerArrangementType::Surround102 => SpeakerArrangementType::Surround(SurroundConfig::S10_2),
        }
    }

    /// Convert the VST API channel properties into the arrangement they
    /// describe. The stereo side comes out of the `STEREO` channel flag.
    /// Flags with unknown bits describe no valid channel and are excluded
    /// here.
    pub fn from_properties(p: api::ChannelProperties) -> (r: SpeakerArrangementType)
        requires
            p.flags & !(CHANNEL_FLAG_ACTIVE | CHANNEL_FLAG_STEREO | CHANNEL_FLAG_SPEAKER) == 0,
        ensures
            r == SpeakerArrangementType::spec_from_properties(p),
    {
        let stereo = if p.flags & CHANNEL_FLAG_STEREO != 0 {
            StereoChannel::Left
        } else {
            StereoChannel::Right
        };
        match p.arrangement_type {
            api::SpeakerArrangementType::Custom => SpeakerArrangementType::Custom,
            api::SpeakerArrangementType::Empty => SpeakerArrangementType::Empty,
            api::SpeakerArrangementType::Mono => SpeakerArrangementType::Mono,
            api::SpeakerArrangementType::Stereo => SpeakerArrangementType::Stereo(StereoConfig::L_R, stereo),
            api::SpeakerArrangementType::StereoSurround => SpeakerArrangementType::Stereo(StereoConfig::Ls_Rs, stereo),
            api::SpeakerArrangementType::StereoCenter => SpeakerArrangementType::Stereo(StereoConfig::Lc_Rc, stereo),
            api::SpeakerArrangementType::StereoSide => SpeakerArrangementType::Stereo(StereoConfig::Sl_Sr, stereo),
            api::SpeakerArrangementType::StereoCLfe => SpeakerArrangementType::Stereo(StereoConfig::C_Lfe, stereo),
            api::SpeakerArrangementType::Music30 => SpeakerArrangementType::Surround(SurroundConfig::S3_0(ArrangementTarget::Music)),
            api::SpeakerArrangementType::Cinema30 => SpeakerArrangementType::Surround(SurroundConfig::S3_0(ArrangementTarget::Cinema)),
            api::SpeakerArrangementType::Music31 => SpeakerArrangementType::Surround(SurroundConfig::S3_1(ArrangementTarget::Music)),
            api::SpeakerArrangementType::Cinema31 => SpeakerArrangementType::Surround(SurroundConfig::S3_1(ArrangementTarget::Cinema)),
            api::SpeakerArrangementType::Music40 => SpeakerArrangementType::Surround(SurroundConfig::S4_0(ArrangementTarget::Music)),
            api::SpeakerArrangementType::Cinema40 => SpeakerArrangementType::Surround(SurroundConfig::S4_0(ArrangementTarget::Cinema)),
            api::SpeakerArrangementType::Music41 => SpeakerArrangementType::Surround(SurroundConfig::S4_1(ArrangementTarget::Music)),
            api::SpeakerArrangementType::Cinema41 => SpeakerArrangementType::Surround(SurroundConfig::S4_1(ArrangementTarget::Cinema)),
            api::SpeakerArrangementType::Surround50 => SpeakerArrangementType::Surround(SurroundConfig::S5_0),
            api::SpeakerArrangementType::Surround51 => SpeakerArrangementType::Surround(SurroundConfig::S5_1),
            api::SpeakerArrangementType::Music60 => SpeakerArrangementType::Surround(SurroundConfig::S6_0(ArrangementTarget::Music)),
            api::SpeakerArrangementType::Cinema60 => SpeakerArrangementType::Surround(SurroundConfig::S6_0(ArrangementTarget::Cinema)),
            api::SpeakerArrangementType::Music61 => SpeakerArrangementType::Surround(SurroundConfig::S6_1(ArrangementTarget::Music)),
            api::SpeakerArrangementType::Cinema61 => SpeakerArrangementType::Surround(SurroundConfig::S6_1(ArrangementTarget::Cinema)),
            api::SpeakerArrangementType::Music70 => SpeakerArrangementType::Surround(SurroundConfig::S7_0(ArrangementTarget::Music)),
            api::SpeakerArrangementType::Cinema70 => SpeakerArrangementType::Surround(SurroundConfig::S7_0(ArrangementTarget::Cinema)),
            api::SpeakerArrangementType::Music71 => SpeakerArrangementType::Surround(SurroundConfig::S7_1(ArrangementTarget::Music)),
            api::SpeakerArrangementType::Cinema71 => SpeakerArrangementType::Surround(SurroundConfig::S7_1(ArrangementTarget::Cinema)),
            api::SpeakerArrangementType::Music80 => SpeakerArrangementType::Surround(SurroundConfig::S8_0(ArrangementTarget::Music)),
            api::SpeakerArrangementType::Cinema80 => SpeakerArrangementType::Surround(SurroundConfig::S8_0(ArrangementTarget::Cinema)),
            api::SpeakerArrangementType::Music81 => SpeakerArrangementType::Surround(SurroundConfig::S8_1(ArrangementTarget::Music)),
            api::SpeakerArrangementType::Cinema81 => SpeakerArrangementType::Surround(SurroundConfig::S8_1(ArrangementTarget::Cinema)),
            api::SpeakerArrangementType::Surround102 => SpeakerArrangementType::Surround(SurroundConfig::S10_2),
        }
    }
}

} // verus!
