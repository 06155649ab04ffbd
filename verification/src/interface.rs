//! Option and prompt handling: the command-line surface as plain data, and
//! the decisions behind the interactive TV-show prompts.
//!
//! The prompts themselves are I/O and live in the application; it hands the
//! answers in as plain values. The library supplies the numeral validation
//! that drives the re-prompt loops and the assembly of the final options.

use vstd::prelude::*;

verus! {

/// Tunes the encoder can be asked for.
#[derive(Clone, Copy, PartialEq, Eq, Structural, Debug)]
pub enum Libx264Tune {
    Film,
    Animation,
    Grain,
    Stillimage,
    Psnr,
    Ssim,
    Fastdecode,
    Zerolatency,
}

/// The command-line options, as plain data. The application parses the
/// command line into its own mirror of this struct and converts.
#[derive(Debug)]
pub struct Opt {
    /// Keep all streams, regardless of language metadata.
    pub all_streams: bool,
    /// CRF value to be passed to the video encoder.
    pub crf: u8,
    /// Crop filter of the form 'crop=height:width:x:y'.
    pub crop: Option<String>,
    /// Force deinterlacing of video.
    pub deinterlace: bool,
    /// Disable automatic deinterlacing of video.
    pub no_deinterlace: bool,
    /// Force reencoding of video.
    pub force_reencode: bool,
    /// Use GPU accelerated encoding.
    pub gpu: bool,
    /// Disable hardware-accelerated decoding.
    pub no_hwaccel: bool,
    /// Do not actually perform the conversion.
    pub simulate: bool,
    /// Encoder tune.
    pub tune: Option<Libx264Tune>,
    pub verbose: bool,
    /// Write output to a log file.
    pub log: bool,
    /// The path to operate on.
    pub path: String,
}

/// TV show metadata collected from the interactive prompts.
#[derive(Debug)]
pub struct TVOptions {
    pub enabled: bool,
    pub title: Option<String>,
    pub season: Option<usize>,
    pub episode: Option<usize>,
}

impl TVOptions {
    /// Well-formed options carry the show metadata exactly when TV show
    /// mode is enabled.
    pub open spec fn wf(self) -> bool {
        &&& self.enabled ==> self.title is Some && self.season is Some && self.episode is Some
        &&& !self.enabled ==> self.title is None && self.season is None && self.episode is None
    }
}

/// Whether `c` is a decimal digit.
pub open spec fn is_digit(c: char) -> bool {
    ('0' as int) <= (c as int) && (c as int) <= ('9' as int)
}

/// The numeric value of a decimal digit.
pub open spec fn digit_val(c: char) -> int {
    (c as int) - ('0' as int)
}

/// The value of a string of decimal digits, most significant first.
pub open spec fn digits_value(s: Seq<char>) -> int
    decreases s.len(),
{
    if s.len() == 0 {
        0
    } else {
        digits_value(s.drop_last()) * 10 + digit_val(s.last())
    }
}

/// The digit part of a numeral: everything after an optional leading '+'.
pub open spec fn numeral_digits(s: Seq<char>) -> Seq<char> {
    if s.len() > 0 && s[0] == '+' {
        s.drop_first()
    } else {
        s
    }
}

/// A well-formed unsigned numeral: an optional leading '+' followed by one
/// or more decimal digits and nothing else.
pub open spec fn is_usize_numeral(s: Seq<char>) -> bool {
    let d = numeral_digits(s);
    d.len() > 0 && forall|i: int| 0 <= i < d.len() ==> is_digit(d[i])
}

proof fn lemma_digits_value_nonneg(s: Seq<char>)
    requires
        forall|i: int| 0 <= i < s.len() ==> is_digit(s[i]),
    ensures
        digits_value(s) >= 0,
    decreases s.len(),
{
    if s.len() > 0 {
        assert(forall|i: int| 0 <= i < s.drop_last().len() ==> is_digit(s.drop_last()[i]));
        lemma_digits_value_nonneg(s.drop_last());
    }
}

proof fn lemma_digits_value_prefix_le(s: Seq<char>, m: int)
    requires
        forall|i: int| 0 <= i < s.len() ==> is_digit(s[i]),
        0 <= m <= s.len(),
    ensures
        digits_value(s.take(m)) <= digits_value(s),
    decreases s.len() - m,
{
    if m == s.len() {
        assert(s.take(m) =~= s);
    } else {
        assert(s.take(m + 1).drop_last() =~= s.take(m));
        assert(s.take(m + 1).last() == s[m]);
        assert(forall|i: int| 0 <= i < s.take(m).len() ==> is_digit(s.take(m)[i]));
        lemma_digits_value_nonneg(s.take(m));
        lemma_digits_value_prefix_le(s, m + 1);
    }
}

/// Parses an unsigned decimal numeral, as the prompt loops need it: the
/// answer is accepted exactly when it is an optional '+' followed by one or
/// more digits whose value fits a `usize`; anything else asks again.
pub fn parse_usize(s: &str) -> (r: Option<usize>)
    ensures
        r is Some <==> is_usize_numeral(s@) && digits_value(numeral_digits(s@)) <= usize::MAX
            as int,
        r matches Some(v) ==> v == digits_value(numeral_digits(s@)),
{
    let len = s.unicode_len();
    let start: usize = if len > 0 && s.get_char(0) == '+' {
        1
    } else {
        0
    };
    let ghost d = numeral_digits(s@);
    proof {
        if start == 1 {
            assert(d =~= s@.skip(1));
        } else {
            assert(d =~= s@.skip(0));
        }
    }
    if start >= len {
        // no digits at all
        return None;
    }
    let mut val: usize = 0;
    let mut i: usize = start;
    while i < len
        invariant
            start <= i <= len,
            start < len,
            len == s@.len(),
            d == numeral_digits(s@),
            d == s@.skip(start as int),
            forall|k: int| 0 <= k < i - start ==> is_digit(d[k]),
            val == digits_value(d.take(i - start as int)),
        decreases len - i,
    {
        let c = s.get_char(i);
        let u = c as u32;
        proof {
            assert(d[i - start as int] == s@[i as int]);
        }
        if u < 48 || u > 57 {
            // a non-digit: not a numeral
            return None;
        }
        let digit: usize = (u - 48) as usize;
        proof {
            assert(digit == digit_val(d[i - start as int]));
            assert(d.take(i - start as int + 1).drop_last() =~= d.take(i - start as int));
            assert(d.take(i - start as int + 1).last() == d[i - start as int]);
        }
        let next: usize = match val.checked_mul(10) {
            Some(x) => match x.checked_add(digit) {
                Some(y) => y,
                None => {
                    proof {
                        if is_usize_numeral(s@) {
                            lemma_digits_value_prefix_le(d, i - start as int + 1);
                        }
                    }
                    return None;
                },
            },
            None => {
                proof {
                    if is_usize_numeral(s@) {
                        lemma_digits_value_nonneg(d.take(i - start as int));
                        lemma_digits_value_prefix_le(d, i - start as int + 1);
                    }
                }
                return None;
            },
        };
        val = next;
        i = i + 1;
    }
    proof {
        assert(d.take(d.len() as int) =~= d);
    }
    Some(val)
}

/// Assembles the TV-show options from the prompt answers: when TV show
/// mode was declined, the metadata is absent whatever was answered; when it
/// was confirmed, the collected title, season and episode are carried over
/// unchanged.
pub fn get_tv_options(
    enabled: bool,
    title: Option<String>,
    season: Option<usize>,
    episode: Option<usize>,
) -> (r: TVOptions)
    requires
        enabled ==> title is Some && season is Some && episode is Some,
    ensures
        r.enabled == enabled,
        enabled ==> r.title == title && r.season == season && r.episode == episode,
        r.wf(),
{
    if enabled {
        TVOptions { enabled, title, season, episode }
    } else {
        TVOptions { enabled, title: None, season: None, episode: None }
    }
}

} // verus!
