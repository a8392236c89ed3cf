//! Pure parts of the FFmpeg backend: the command line of the decoder and
//! the decoding of its raw little-endian 32-bit output.

use vstd::prelude::*;
use crate::text::push_str;

verus! {

/// The options that make FFmpeg read a network stream robustly.
pub open spec fn input_options() -> Seq<Seq<char>> {
    seq![
        "-reconnect"@,
        "1"@,
        "-reconnect_streamed"@,
        "1"@,
        "-reconnect_delay_max"@,
        "5"@,
        "-probesize"@,
        "64M"@,
        "-analyzeduration"@,
        "20M"@,
        "-fflags"@,
        "+discardcorrupt"@,
    ]
}

/// The resampling filter applied after the equalizer.
pub open spec fn resample_filter() -> Seq<char> {
    "aresample=async=1:min_hard_comp=0.100000"@
}

/// The audio filter chain: the equalizer chain when there is one, then the
/// resampler, joined by commas.
pub open spec fn filter_chain(equalizer: Option<Seq<char>>) -> Seq<char> {
    match equalizer {
        Some(eq) => eq + ","@ + resample_filter(),
        None => resample_filter(),
    }
}

/// The FFmpeg arguments that decode `url` into raw stereo 48 kHz signed
/// 32-bit little-endian samples on stdout, seeking to `seek` (a formatted
/// position in seconds) when given, through the equalizer chain when given.
pub open spec fn decode_args_spec(url: Seq<char>, seek: Option<Seq<char>>, equalizer: Option<Seq<char>>) -> Seq<Seq<char>> {
    input_options() + match seek {
        Some(pos) => seq!["-ss"@, pos],
        None => Seq::empty(),
    } + seq!["-i"@, url] + seq![
        "-f"@,
        "s32le"@,
        "-acodec"@,
        "pcm_s32le"@,
        "-ac"@,
        "2"@,
        "-ar"@,
        "48000"@,
        "-af"@,
        filter_chain(equalizer),
    ] + seq!["-bufsize"@, "2M"@, "-loglevel"@, "error"@, "pipe:1"@]
}

/// The views of a sequence of strings.
pub open spec fn arg_views(v: Seq<String>) -> Seq<Seq<char>> {
    v.map_values(|s: String| s@)
}

fn push_arg(args: &mut Vec<String>, a: &str)
    ensures
        arg_views(final(args)@) == arg_views(old(args)@).push(a@),
{
    args.push(a.to_owned());
    proof {
        assert(arg_views(args@) =~= arg_views(old(args)@).push(a@));
    }
}

/// Builds the FFmpeg decoder arguments; `seek` is the start position
/// already formatted (given only when it is positive).
pub fn decode_args(url: &str, seek: Option<&str>, equalizer_filter: Option<&str>) -> (args: Vec<String>)
    ensures
        arg_views(args@) == decode_args_spec(
            url@,
            match seek {
                Some(s) => Some(s@),
                None => None,
            },
            match equalizer_filter {
                Some(e) => Some(e@),
                None => None,
            },
        ),
{
    let mut args: Vec<String> = Vec::new();
    push_arg(&mut args, "-reconnect");
    push_arg(&mut args, "1");
    push_arg(&mut args, "-reconnect_streamed");
    push_arg(&mut args, "1");
    push_arg(&mut args, "-reconnect_delay_max");
    push_arg(&mut args, "5");
    push_arg(&mut args, "-probesize");
    push_arg(&mut args, "64M");
    push_arg(&mut args, "-analyzeduration");
    push_arg(&mut args, "20M");
    push_arg(&mut args, "-fflags");
    push_arg(&mut args, "+discardcorrupt");
    let ghost a0 = arg_views(args@);
    proof {
        assert(a0 =~= input_options());
    }
    match seek {
        Some(pos) => {
            push_arg(&mut args, "-ss");
            push_arg(&mut args, pos);
        },
        None => {},
    }
    let ghost a1 = arg_views(args@);
    push_arg(&mut args, "-i");
    push_arg(&mut args, url);
    let ghost a2 = arg_views(args@);
    let mut filters = match equalizer_filter {
        Some(eq) => {
            let mut f = eq.to_owned();
            push_str(&mut f, ",");
            f
        },
        None => String::new(),
    };
    push_str(&mut filters, "aresample=async=1:min_hard_comp=0.100000");
    push_arg(&mut args, "-f");
    push_arg(&mut args, "s32le");
    push_arg(&mut args, "-acodec");
    push_arg(&mut args, "pcm_s32le");
    push_arg(&mut args, "-ac");
    push_arg(&mut args, "2");
    push_arg(&mut args, "-ar");
    push_arg(&mut args, "48000");
    push_arg(&mut args, "-af");
    push_arg(&mut args, filters.as_str());
    let ghost a3 = arg_views(args@);
    push_arg(&mut args, "-bufsize");
    push_arg(&mut args, "2M");
    push_arg(&mut args, "-loglevel");
    push_arg(&mut args, "error");
    push_arg(&mut args, "pipe:1");
    proof {
        let sk = match seek {
            Some(s) => Some(s@),
            None => None,
        };
        let eq = match equalizer_filter {
            Some(e) => Some(e@),
            None => None,
        };
        assert(filters@ =~= filter_chain(eq));
        assert(a1 =~= input_options() + match sk {
            Some(pos) => seq!["-ss"@, pos],
            None => Seq::empty(),
        });
        assert(a2 =~= a1 + seq!["-i"@, url@]);
        assert(arg_views(args@) =~= decode_args_spec(url@, sk, eq));
    }
    args
}

/// The signed value of four little-endian bytes.
pub open spec fn le_i32(b0: u8, b1: u8, b2: u8, b3: u8) -> int {
    let u = b0 + 256 * b1 + 65536 * b2 + 16777216 * b3;
    if u >= 2147483648 {
        u - 4294967296
    } else {
        u
    }
}

/// The samples of raw `s32le` output: one signed little-endian 32-bit
/// integer per four bytes; a trailing partial sample is ignored.
pub open spec fn s32le_samples(raw: Seq<u8>) -> Seq<i32> {
    Seq::new(
        raw.len() / 4,
        |i: int| le_i32(raw[4 * i], raw[4 * i + 1], raw[4 * i + 2], raw[4 * i + 3]) as i32,
    )
}

/// Decodes raw `s32le` bytes into samples.
pub fn decode_s32le(raw: &[u8]) -> (samples: Vec<i32>)
    ensures
        samples@ == s32le_samples(raw@),
{
    let n = raw.len() / 4;
    proof {
        let len = raw@.len() as int;
        assert(4 * (len / 4) <= len) by (nonlinear_arith);
    }
    let mut samples: Vec<i32> = Vec::new();
    let mut i: usize = 0;
    while i < n
        invariant
            n == raw@.len() / 4,
            4 * n <= raw@.len(),
            raw@.len() == raw.len(),
            raw.len() <= usize::MAX,
            i <= n,
            samples@ == s32le_samples(raw@).take(i as int),
        decreases n - i,
    {
        let b0 = raw[4 * i];
        let b1 = raw[4 * i + 1];
        let b2 = raw[4 * i + 2];
        let b3 = raw[4 * i + 3];
        let u: u32 = (b0 as u32) + 256 * (b1 as u32) + 65536 * (b2 as u32) + 16777216 * (b3 as u32);
        let v: i32 = if u >= 2147483648 {
            ((u - 2147483648) as i32) - 2147483647 - 1
        } else {
            u as i32
        };
        samples.push(v);
        proof {
            assert(v == le_i32(b0, b1, b2, b3));
            assert(samples@ =~= s32le_samples(raw@).take(i + 1));
        }
        i = i + 1;
    }
    proof {
        assert(s32le_samples(raw@).take(n as int) =~= s32le_samples(raw@));
    }
    samples
}

} // verus!
