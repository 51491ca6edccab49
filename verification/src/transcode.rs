//! The choices made around FFmpeg when exporting and transcoding audio: the
//! output file, the encoder's sample format and channel layout, and how FFmpeg
//! errors are reported.
use vstd::prelude::*;
use crate::media::PreferredAudioOutput;
use crate::text::{contains_seq, chars_contain_seq, chars_of, push_str, string_of};

verus! {

/// The encoder a transcode targets.
#[derive(Clone, Copy, Debug, PartialEq, Eq, Structural)]
pub enum AudioTranscodeTarget {
    Mp3,
    Flac,
}

impl AudioTranscodeTarget {
    /// The name used in messages.
    pub open spec fn name(self) -> Seq<char> {
        match self {
            AudioTranscodeTarget::Mp3 => "MP3"@,
            AudioTranscodeTarget::Flac => "FLAC"@,
        }
    }

    /// The name used in messages.
    pub fn display_name(self) -> (r: &'static str)
        ensures
            r@ == self.name(),
    {
        match self {
            AudioTranscodeTarget::Mp3 => "MP3",
            AudioTranscodeTarget::Flac => "FLAC",
        }
    }
}

/// The file an exported download is written as: the stem with the extension
/// of the container it is remuxed into, or `flac` or `mp3` when transcoded.
pub open spec fn export_file_name(stem: Seq<char>, output: PreferredAudioOutput) -> Seq<char> {
    stem + "."@ + match output {
        PreferredAudioOutput::Remux { extension } => extension@,
        PreferredAudioOutput::TranscodeFlac => "flac"@,
        PreferredAudioOutput::TranscodeMp3 => "mp3"@,
    }
}

/// Names the exported file.
pub fn export_output_file_name(stem: &str, output: &PreferredAudioOutput) -> (r: String)
    ensures
        r@ == export_file_name(stem@, *output),
{
    let ext: &str = match output {
        PreferredAudioOutput::Remux { extension } => extension,
        PreferredAudioOutput::TranscodeFlac => "flac",
        PreferredAudioOutput::TranscodeMp3 => "mp3",
    };
    let mut out: Vec<char> = Vec::new();
    push_str(&mut out, stem);
    push_str(&mut out, ".");
    push_str(&mut out, ext);
    string_of(&out)
}

/// The outcome of an FFmpeg call: a negative code is an error, reported as
/// `{context}: {FFmpeg's text for the code}`.
pub fn ffmpeg_call(code: i32, context: &str, error_text: &str) -> (r: Result<(), String>)
    ensures
        r is Ok <==> code >= 0,
        r matches Err(m) ==> m@ == context@ + ": "@ + error_text@,
{
    if code < 0 {
        let mut out: Vec<char> = Vec::new();
        push_str(&mut out, context);
        push_str(&mut out, ": ");
        push_str(&mut out, error_text);
        Err(string_of(&out))
    } else {
        Ok(())
    }
}

/// An FFmpeg failure that means the input is not playable media (rather than
/// a failure of the machine).
pub open spec fn unsupported_media_error(message: Seq<char>) -> bool {
    contains_seq(message, "Invalid data found"@) || contains_seq(message, "End of file"@) || contains_seq(
        message,
        "No such file or directory"@,
    )
}

/// Whether an FFmpeg failure means the input is not playable media.
pub fn is_unsupported_media_error(message: &str) -> (r: bool)
    ensures
        r == unsupported_media_error(message@),
{
    let m = chars_of(message);
    chars_contain_seq(&m, &chars_of("Invalid data found")) || chars_contain_seq(&m, &chars_of("End of file"))
        || chars_contain_seq(&m, &chars_of("No such file or directory"))
}

/// FFmpeg's `AV_SAMPLE_FMT_S16`.
pub const SAMPLE_FMT_S16: i32 = 1;

/// FFmpeg's `AV_SAMPLE_FMT_FLTP`.
pub const SAMPLE_FMT_FLTP: i32 = 8;

/// The formats an encoder prefers: planar float for MP3; for FLAC the
/// decoder's own format, then signed 16-bit.
pub open spec fn preferred_formats(target: AudioTranscodeTarget, decoder_fmt: i32) -> (i32, Option<i32>) {
    match target {
        AudioTranscodeTarget::Mp3 => (SAMPLE_FMT_FLTP, None),
        AudioTranscodeTarget::Flac => (decoder_fmt, Some(SAMPLE_FMT_S16)),
    }
}

/// The first supported format that is one of the preferred ones, if any.
pub open spec fn first_preferred(formats: Seq<i32>, preferred: i32, secondary: Option<i32>) -> Option<i32>
    decreases formats.len(),
{
    if formats.len() == 0 {
        None
    } else if formats[0] == preferred || Some(formats[0]) == secondary {
        Some(formats[0])
    } else {
        first_preferred(formats.drop_first(), preferred, secondary)
    }
}

/// The sample format to encode with, from the formats the encoder lists (none
/// when it lists nothing at all): the first listed one that is preferred, else
/// the first listed; an empty or missing list is an error naming the encoder.
pub open spec fn sample_format_choice(formats: Option<Seq<i32>>, target: AudioTranscodeTarget, decoder_fmt: i32) -> Result<i32, Seq<char>> {
    match formats {
        None => Err(target.name() + " encoder did not expose supported sample formats"@),
        Some(fs) => {
            let (p, s) = preferred_formats(target, decoder_fmt);
            match first_preferred(fs, p, s) {
                Some(f) => Ok(f),
                None => if fs.len() > 0 {
                    Ok(fs[0])
                } else {
                    Err(target.name() + " encoder did not expose any usable sample format"@)
                },
            }
        },
    }
}

/// The default sample rate: 44.1 kHz.
pub const DEFAULT_SAMPLE_RATE: i32 = 44100;

/// The sample rate to encode with. An encoder that lists no rates takes the
/// preferred one when it is positive, else 44.1 kHz; one that lists rates
/// takes the preferred one when listed, else the first listed (44.1 kHz when
/// the list is empty).
pub open spec fn sample_rate_choice(rates: Option<Seq<i32>>, preferred: i32) -> i32 {
    match rates {
        None => if preferred > 0 {
            preferred
        } else {
            DEFAULT_SAMPLE_RATE
        },
        Some(rs) => if rs.contains(preferred) {
            preferred
        } else if rs.len() > 0 {
            rs[0]
        } else {
            DEFAULT_SAMPLE_RATE
        },
    }
}

/// Chooses the sample rate to encode with, from the rates the encoder lists
/// before the zero that ends its list.
pub fn select_sample_rate(rates: Option<&[i32]>, preferred: i32) -> (r: i32)
    ensures
        r == sample_rate_choice(
            match rates {
                Some(rs) => Some(rs@),
                None => None,
            },
            preferred,
        ),
{
    let rs = match rates {
        None => {
            return if preferred > 0 {
                preferred
            } else {
                DEFAULT_SAMPLE_RATE
            };
        },
        Some(rs) => rs,
    };
    let mut fallback: i32 = DEFAULT_SAMPLE_RATE;
    let mut i: usize = 0;
    while i < rs.len()
        invariant
            i <= rs.len(),
            rates == Some(rs),
            forall|j: int| 0 <= j < i ==> rs@[j] != preferred,
            i > 0 ==> fallback == rs@[0],
            i == 0 ==> fallback == DEFAULT_SAMPLE_RATE,
        decreases rs.len() - i,
    {
        let value = rs[i];
        if i == 0 {
            fallback = value;
        }
        if value == preferred {
            assert(rs@.contains(preferred)) by {
                assert(rs@[i as int] == preferred);
            }
            return value;
        }
        i = i + 1;
    }
    assert(!rs@.contains(preferred));
    fallback
}

/// Chooses the sample format to encode with.
pub fn select_sample_fmt(formats: Option<&[i32]>, target: AudioTranscodeTarget, decoder_fmt: i32) -> (r: Result<i32, String>)
    ensures
        match r {
            Ok(f) => sample_format_choice(
                match formats {
                    Some(fs) => Some(fs@),
                    None => None,
                },
                target,
                decoder_fmt,
            ) == Ok::<i32, Seq<char>>(f),
            Err(m) => sample_format_choice(
                match formats {
                    Some(fs) => Some(fs@),
                    None => None,
                },
                target,
                decoder_fmt,
            ) == Err::<i32, Seq<char>>(m@),
        },
{
    let fs = match formats {
        None => {
            let mut out: Vec<char> = Vec::new();
            push_str(&mut out, target.display_name());
            push_str(&mut out, " encoder did not expose supported sample formats");
            return Err(string_of(&out));
        },
        Some(fs) => fs,
    };
    let preferred: i32 = match target {
        AudioTranscodeTarget::Mp3 => SAMPLE_FMT_FLTP,
        AudioTranscodeTarget::Flac => decoder_fmt,
    };
    let secondary: Option<i32> = match target {
        AudioTranscodeTarget::Mp3 => None,
        AudioTranscodeTarget::Flac => Some(SAMPLE_FMT_S16),
    };
    let mut i: usize = 0;
    assert(fs@.skip(0) =~= fs@);
    while i < fs.len()
        invariant
            i <= fs.len(),
            formats == Some(fs),
            (preferred, secondary) == preferred_formats(target, decoder_fmt),
            first_preferred(fs@, preferred, secondary) == first_preferred(fs@.skip(i as int), preferred, secondary),
        decreases fs.len() - i,
    {
        assert(fs@.skip(i as int).drop_first() =~= fs@.skip(i + 1));
        assert(fs@.skip(i as int)[0] == fs@[i as int]);
        let v = fs[i];
        if v == preferred || Some(v) == secondary {
            return Ok(v);
        }
        i = i + 1;
    }
    if fs.len() > 0 {
        Ok(fs[0])
    } else {
        let mut out: Vec<char> = Vec::new();
        push_str(&mut out, target.display_name());
        push_str(&mut out, " encoder did not expose any usable sample format");
        Err(string_of(&out))
    }
}

/// Which channel layout the encoder gets.
#[derive(Clone, Copy, Debug, PartialEq, Eq, Structural)]
pub enum LayoutChoice {
    /// The encoder's supported layout at this position.
    Supported(usize),
    /// The input's own layout.
    Input,
    /// The default stereo layout.
    DefaultStereo,
}

/// The first supported layout with the input's channel count.
pub open spec fn first_matching(counts: Seq<i32>, channels: i32) -> Option<int>
    decreases counts.len(),
{
    if counts.len() == 0 {
        None
    } else if counts[counts.len() - 1] == channels && first_matching(counts.drop_last(), channels) is None {
        Some(counts.len() - 1)
    } else {
        first_matching(counts.drop_last(), channels)
    }
}

/// The channel layout to encode with: when the encoder lists layouts (by their
/// channel counts), the first with the input's channel count, else its first;
/// when it lists none, the input's layout if valid, else default stereo.
pub open spec fn layout_choice(supported: Option<Seq<i32>>, input_channels: i32, input_valid: bool) -> LayoutChoice {
    match supported {
        Some(counts) if counts.len() > 0 => match first_matching(counts, input_channels) {
            Some(k) => LayoutChoice::Supported(k as usize),
            None => LayoutChoice::Supported(0),
        },
        _ => if input_valid {
            LayoutChoice::Input
        } else {
            LayoutChoice::DefaultStereo
        },
    }
}

/// Chooses the channel layout to encode with.
pub fn select_channel_layout(supported: Option<&[i32]>, input_channels: i32, input_valid: bool) -> (r: LayoutChoice)
    ensures
        r == layout_choice(
            match supported {
                Some(c) => Some(c@),
                None => None,
            },
            input_channels,
            input_valid,
        ),
{
    match supported {
        Some(counts) => {
            if counts.len() > 0 {
                let mut i: usize = 0;
                while i < counts.len()
                    invariant
                        i <= counts.len(),
                        supported == Some(counts),
                        counts@.len() > 0,
                        forall|j: int| 0 <= j < i ==> counts@[j] != input_channels,
                    decreases counts.len() - i,
                {
                    if counts[i] == input_channels {
                        proof {
                            lemma_first_matching(counts@, input_channels, i as int);
                        }
                        return LayoutChoice::Supported(i);
                    }
                    i = i + 1;
                }
                proof {
                    lemma_no_match(counts@, input_channels);
                }
                return LayoutChoice::Supported(0);
            }
        },
        None => {},
    }
    if input_valid {
        LayoutChoice::Input
    } else {
        LayoutChoice::DefaultStereo
    }
}

proof fn lemma_first_matching(counts: Seq<i32>, channels: i32, i: int)
    requires
        0 <= i < counts.len(),
        counts[i] == channels,
        forall|j: int| 0 <= j < i ==> counts[j] != channels,
    ensures
        first_matching(counts, channels) == Some(i),
    decreases counts.len(),
{
    if i < counts.len() - 1 {
        lemma_first_matching(counts.drop_last(), channels, i);
    } else {
        lemma_no_match_prefix(counts.drop_last(), channels);
    }
}

proof fn lemma_no_match_prefix(counts: Seq<i32>, channels: i32)
    requires
        forall|j: int| 0 <= j < counts.len() ==> counts[j] != channels,
    ensures
        first_matching(counts, channels) is None,
    decreases counts.len(),
{
    if counts.len() > 0 {
        lemma_no_match_prefix(counts.drop_last(), channels);
    }
}

proof fn lemma_no_match(counts: Seq<i32>, channels: i32)
    requires
        forall|j: int| 0 <= j < counts.len() ==> counts[j] != channels,
    ensures
        first_matching(counts, channels) is None,
{
    lemma_no_match_prefix(counts, channels);
}

} // verus!
