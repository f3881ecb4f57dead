//! Backlight binding: parsing the kernel's decimal device files,
//! the brightness device with its clamping invariant, arbitration
//! between discovered candidates, and the display-brightness interface
//! values served to the user session.

use vstd::prelude::*;
use vstd::string::StrSliceExecFns;

verus! {

/// Why a device file could not be turned into a value.
#[derive(Debug, Clone, Copy, PartialEq, Eq, Structural)]
pub enum DeviceIoError {
    /// The file could not be read at all.
    Unreadable,
    /// The file's content is not a decimal value in range.
    Malformed,
}

impl DeviceIoError {
    /// The human-readable description of the failure.
    pub open spec fn spec_message(self) -> Seq<char> {
        match self {
            DeviceIoError::Unreadable => "device file could not be read"@,
            DeviceIoError::Malformed => "device file is not a decimal value"@,
        }
    }

    /// Returns the description of the failure.
    pub fn message(&self) -> (r: String)
        ensures
            r@ == self.spec_message(),
    {
        match self {
            DeviceIoError::Unreadable => "device file could not be read".to_owned(),
            DeviceIoError::Malformed => "device file is not a decimal value".to_owned(),
        }
    }
}

/// The whitespace that may surround the decimal value in a device file
/// (the kernel terminates it with a newline).
pub open spec fn is_trim_char(c: char) -> bool {
    c == ' ' || c == '\n' || c == '\t' || c == '\r'
}

/// `s` with its leading whitespace removed.
pub open spec fn trim_front(s: Seq<char>) -> Seq<char>
    decreases s.len(),
{
    if s.len() > 0 && is_trim_char(s[0]) {
        trim_front(s.drop_first())
    } else {
        s
    }
}

/// `s` with its trailing whitespace removed.
pub open spec fn trim_back(s: Seq<char>) -> Seq<char>
    decreases s.len(),
{
    if s.len() > 0 && is_trim_char(s.last()) {
        trim_back(s.drop_last())
    } else {
        s
    }
}

/// `s` with whitespace removed from both ends.
pub open spec fn spec_trim(s: Seq<char>) -> Seq<char> {
    trim_back(trim_front(s))
}

/// Whether `c` is a decimal digit.
pub open spec fn is_digit_char(c: char) -> bool {
    48 <= c as u32 <= 57
}

/// The value of a decimal digit character.
pub open spec fn digit_value(c: char) -> nat {
    (c as u32 - 48) as nat
}

/// Whether every character of `s` is a decimal digit.
pub open spec fn all_digits(s: Seq<char>) -> bool {
    forall|i: int| 0 <= i < s.len() ==> is_digit_char(#[trigger] s[i])
}

/// The number denoted by a sequence of decimal digits, most significant
/// first.
pub open spec fn digits_value(s: Seq<char>) -> nat
    decreases s.len(),
{
    if s.len() == 0 {
        0
    } else {
        digits_value(s.drop_last()) * 10 + digit_value(s.last())
    }
}

/// What a brightness device file denotes: the whitespace-trimmed content
/// read as a decimal number, provided it is non-empty, all digits, and
/// in range.
pub open spec fn spec_parse_u32(s: Seq<char>) -> Option<u32> {
    let t = spec_trim(s);
    if t.len() > 0 && all_digits(t) && digits_value(t) <= u32::MAX {
        Some(digits_value(t) as u32)
    } else {
        None
    }
}

/// A digit prefix never denotes more than the whole digit string.
proof fn lemma_digits_value_prefix_le(s: Seq<char>, n: int)
    requires
        0 <= n <= s.len(),
    ensures
        digits_value(s.take(n)) <= digits_value(s),
    decreases s.len() - n,
{
    if n == s.len() {
        assert(s.take(n) =~= s);
    } else {
        assert(s.take(n + 1).drop_last() =~= s.take(n));
        assert(digits_value(s.take(n + 1)) == digits_value(s.take(n)) * 10 + digit_value(
            s.take(n + 1).last(),
        ));
        lemma_digits_value_prefix_le(s, n + 1);
    }
}

/// Reads a brightness device file's content as a decimal value.
pub fn parse_device_value(text: &str) -> (r: Option<u32>)
    ensures
        r == spec_parse_u32(text@),
{
    let ghost s = text@;
    let len: usize = text.unicode_len();
    let mut lo: usize = 0;
    proof {
        assert(s.skip(0) =~= s);
    }
    while lo < len && is_trim(text.get_char(lo))
        invariant
            lo <= len,
            len == s.len(),
            s == text@,
            trim_front(s) == trim_front(s.skip(lo as int)),
        decreases len - lo,
    {
        proof {
            assert(s.skip(lo as int).drop_first() =~= s.skip(lo as int + 1));
        }
        lo = lo + 1;
    }
    proof {
        if lo == len {
            assert(s.skip(lo as int) =~= Seq::<char>::empty());
        }
        assert(trim_front(s) == s.subrange(lo as int, len as int)) by {
            assert(s.skip(lo as int) =~= s.subrange(lo as int, len as int));
        }
    }
    let mut hi: usize = len;
    while hi > lo && is_trim(text.get_char(hi - 1))
        invariant
            lo <= hi <= len,
            len == s.len(),
            s == text@,
            trim_front(s) == s.subrange(lo as int, len as int),
            trim_back(s.subrange(lo as int, len as int)) == trim_back(
                s.subrange(lo as int, hi as int),
            ),
        decreases hi,
    {
        proof {
            assert(s.subrange(lo as int, hi as int).drop_last() =~= s.subrange(
                lo as int,
                hi as int - 1,
            ));
        }
        hi = hi - 1;
    }
    proof {
        if hi == lo {
            assert(s.subrange(lo as int, hi as int) =~= Seq::<char>::empty());
        }
        assert(spec_trim(s) == s.subrange(lo as int, hi as int));
    }
    let ghost t = s.subrange(lo as int, hi as int);
    if hi == lo {
        return None;
    }
    let mut acc: u64 = 0;
    let mut i: usize = lo;
    while i < hi
        invariant
            lo <= i <= hi <= len,
            len == s.len(),
            s == text@,
            t == s.subrange(lo as int, hi as int),
            spec_trim(s) == t,
            hi > lo,
            acc == digits_value(t.take(i - lo)),
            acc <= u32::MAX,
            all_digits(t.take(i - lo)),
        decreases hi - i,
    {
        let c = text.get_char(i);
        let d: u32 = c as u32;
        proof {
            assert(t[i - lo] == s[i as int]);
        }
        if d < 48 || d > 57 {
            proof {
                assert(!is_digit_char(t[i - lo]));
            }
            return None;
        }
        acc = acc * 10 + ((d - 48) as u64);
        proof {
            assert(t.take(i - lo + 1).drop_last() =~= t.take(i - lo));
            assert(t.take(i - lo + 1).last() == t[i - lo]);
            assert(acc == digits_value(t.take(i - lo + 1)));
            assert(all_digits(t.take(i - lo + 1)));
        }
        if acc > (u32::MAX as u64) {
            proof {
                lemma_digits_value_prefix_le(t, i - lo + 1);
            }
            return None;
        }
        i = i + 1;
    }
    proof {
        assert(t.take(hi - lo) =~= t);
    }
    Some(acc as u32)
}

/// Whether `c` is whitespace that device files may carry around their
/// value.
fn is_trim(c: char) -> (r: bool)
    ensures
        r == is_trim_char(c),
{
    c == ' ' || c == '\n' || c == '\t' || c == '\r'
}

/// One discovered backlight controller.  The subsystem is `backlight`
/// or `leds`; the bounds are fixed at construction, with the minimum a
/// tenth of the maximum, rounded down.
#[derive(Debug, Clone)]
pub struct BrightnessDevice {
    subsystem: String,
    sysname: String,
    max_brightness: u32,
    min_brightness: u32,
}

/// Clamping a requested value into a closed range.
pub open spec fn spec_clamp(value: int, lo: u32, hi: u32) -> u32 {
    if value < lo {
        lo
    } else if value > hi {
        hi
    } else {
        value as u32
    }
}

impl BrightnessDevice {
    /// The device's subsystem category.
    pub closed spec fn spec_subsystem(self) -> Seq<char> {
        self.subsystem@
    }

    /// The device's system name.
    pub closed spec fn spec_sysname(self) -> Seq<char> {
        self.sysname@
    }

    /// The device's maximum accepted brightness.
    pub closed spec fn spec_max(self) -> u32 {
        self.max_brightness
    }

    /// The device's minimum accepted brightness.
    pub closed spec fn spec_min(self) -> u32 {
        self.min_brightness
    }

    /// The device's invariant: the minimum is a tenth of the maximum,
    /// rounded down (so it never exceeds the maximum).
    pub open spec fn wf(self) -> bool {
        self.spec_min() == self.spec_max() / 10
    }

    /// Builds a device from its identity and the content of its
    /// `max_brightness` metadata file.
    pub fn new(subsystem: &str, sysname: String, max_brightness_text: &str) -> (r: Result<
        Self,
        DeviceIoError,
    >)
        ensures
            match spec_parse_u32(max_brightness_text@) {
                Some(m) => {
                    &&& r matches Ok(d)
                    &&& d.spec_subsystem() == subsystem@
                    &&& d.spec_sysname() == sysname@
                    &&& d.spec_max() == m
                    &&& d.spec_min() == m / 10
                    &&& d.wf()
                },
                None => r matches Err(e) && e == DeviceIoError::Malformed,
            },
    {
        match parse_device_value(max_brightness_text) {
            Some(max_brightness) => Ok(BrightnessDevice {
                subsystem: subsystem.to_owned(),
                sysname,
                max_brightness,
                min_brightness: max_brightness / 10,
            }),
            None => Err(DeviceIoError::Malformed),
        }
    }

    /// Reads the device's current brightness from its live `brightness`
    /// state file: the reading is the file's content, absent when the
    /// file could not be read.  The device caches nothing: every call
    /// is answered from the reading alone, so two calls over the same
    /// reading return the same value.
    pub fn brightness(&self, reading: Option<&str>) -> (r: Result<u32, DeviceIoError>)
        ensures
            match reading {
                Some(text) => match spec_parse_u32(text@) {
                    Some(v) => r matches Ok(b) && b == v,
                    None => r matches Err(e) && e == DeviceIoError::Malformed,
                },
                None => r matches Err(e) && e == DeviceIoError::Unreadable,
            },
    {
        match reading {
            Some(text) => match parse_device_value(text) {
                Some(v) => Ok(v),
                None => Err(DeviceIoError::Malformed),
            },
            None => Err(DeviceIoError::Unreadable),
        }
    }

    /// The maximum accepted brightness.
    pub fn max_brightness(&self) -> (r: u32)
        ensures
            r == self.spec_max(),
    {
        self.max_brightness
    }

    /// The minimum accepted brightness.
    pub fn min_brightness(&self) -> (r: u32)
        ensures
            r == self.spec_min(),
    {
        self.min_brightness
    }

    /// The device's system name.
    pub fn sysname(&self) -> (r: &String)
        ensures
            r@ == self.spec_sysname(),
    {
        &self.sysname
    }

    /// The device's subsystem category.
    pub fn subsystem(&self) -> (r: &String)
        ensures
            r@ == self.spec_subsystem(),
    {
        &self.subsystem
    }

    /// Clamps a requested brightness into the device's accepted range
    /// and returns the value that is to be applied.  The privileged
    /// write itself is best-effort and carried out by the caller; the
    /// returned value is the intended effect either way.
    pub fn set_brightness(&self, value: i32) -> (r: u32)
        requires
            self.wf(),
        ensures
            r == spec_clamp(value as int, self.spec_min(), self.spec_max()),
            self.spec_min() <= r <= self.spec_max(),
    {
        proof {
            assert(self.spec_max() / 10 <= self.spec_max()) by (nonlinear_arith);
        }
        if value < 0 {
            self.min_brightness
        } else {
            let v: u32 = value as u32;
            if v < self.min_brightness {
                self.min_brightness
            } else if v > self.max_brightness {
                self.max_brightness
            } else {
                v
            }
        }
    }
}

/// Reading the brightness is idempotent: the value returned is a
/// function of the live state file's content alone, so two reads with
/// no intervening write — hence equal contents — return the same
/// value.
pub proof fn lemma_brightness_idempotent(first_reading: Seq<char>, second_reading: Seq<char>)
    requires
        first_reading == second_reading,
    ensures
        spec_parse_u32(first_reading) == spec_parse_u32(second_reading),
{
}

/// One enumerated backlight device node, as discovery hands it to the
/// arbiter: its system name, when it is readable as text, and the
/// content of its `max_brightness` metadata file, when that could be
/// read.
pub struct BacklightCandidate {
    pub sysname: Option<String>,
    pub max_brightness_text: Option<String>,
}

/// The maximum brightness a candidate offers, when a device can be
/// constructed from it at all.
pub open spec fn candidate_value(c: BacklightCandidate) -> Option<u32> {
    match (c.sysname, c.max_brightness_text) {
        (Some(_), Some(t)) => spec_parse_u32(t@),
        _ => None,
    }
}

/// The index of the candidate the arbiter keeps: a left-to-right fold
/// over the constructible candidates in which a later candidate wins
/// only with a strictly greater maximum, so the first to reach the
/// running maximum is kept.  `-1` when no candidate is constructible.
pub open spec fn spec_best_index(s: Seq<BacklightCandidate>) -> int
    decreases s.len(),
{
    if s.len() == 0 {
        -1
    } else {
        let prev: int = spec_best_index(s.drop_last());
        let last: int = s.len() - 1;
        match candidate_value(s.last()) {
            Some(v) => {
                if prev == -1 {
                    last as int
                } else {
                    match candidate_value(s[prev]) {
                        Some(pv) => if v > pv {
                            last as int
                        } else {
                            prev
                        },
                        None => last as int,
                    }
                }
            },
            None => prev,
        }
    }
}

/// What connects the arbiter's result to the candidate it was built
/// from.
pub open spec fn device_matches_candidate(d: BrightnessDevice, c: BacklightCandidate) -> bool {
    &&& d.spec_subsystem() == "backlight"@
    &&& (match c.sysname {
        Some(n) => d.spec_sysname() == n@,
        None => false,
    })
    &&& candidate_value(c) == Some(d.spec_max())
    &&& d.spec_min() == d.spec_max() / 10
}

/// The arbiter's choice is sound: it returns `-1` exactly when no
/// candidate is constructible, and otherwise the index of a
/// constructible candidate whose maximum no candidate exceeds, with
/// every earlier constructible candidate strictly below it.
pub proof fn lemma_best_index_sound(s: Seq<BacklightCandidate>)
    ensures
        spec_best_index(s) == -1 <==> (forall|j: int|
            0 <= j < s.len() ==> candidate_value(#[trigger] s[j]) is None),
        spec_best_index(s) != -1 ==> {
            let i = spec_best_index(s);
            &&& 0 <= i < s.len()
            &&& candidate_value(s[i]) is Some
            &&& (forall|j: int|
                0 <= j < s.len() && candidate_value(#[trigger] s[j]) is Some ==> candidate_value(
                    s[j],
                )->0 <= candidate_value(s[i])->0)
            &&& (forall|j: int|
                0 <= j < i && candidate_value(#[trigger] s[j]) is Some ==> candidate_value(
                    s[j],
                )->0 < candidate_value(s[i])->0)
        },
    decreases s.len(),
{
    if s.len() > 0 {
        lemma_best_index_sound(s.drop_last());
        assert(forall|j: int| 0 <= j < s.len() - 1 ==> s.drop_last()[j] == #[trigger] s[j]);
    }
}

/// Arbitrates between the discovered candidates: constructs a device
/// for every candidate that allows it and keeps the one with the
/// strictly greatest maximum brightness, ties keeping the first.
pub fn choose_best(candidates: Vec<BacklightCandidate>) -> (r: Option<BrightnessDevice>)
    ensures
        (r is None <==> forall|j: int|
            0 <= j < candidates@.len() ==> candidate_value(#[trigger] candidates@[j]) is None),
        r matches Some(d) ==> {
            &&& d.wf()
            &&& 0 <= spec_best_index(candidates@) < candidates@.len()
            &&& device_matches_candidate(d, candidates@[spec_best_index(candidates@)])
            &&& (forall|j: int|
                0 <= j < candidates@.len() && candidate_value(#[trigger] candidates@[j]) is Some
                    ==> candidate_value(candidates@[j])->0 <= d.spec_max())
            &&& (forall|j: int|
                0 <= j < spec_best_index(candidates@) && candidate_value(
                    #[trigger] candidates@[j],
                ) is Some ==> candidate_value(candidates@[j])->0 < d.spec_max())
        },
{
    proof {
        lemma_best_index_sound(candidates@);
    }
    let ghost s = candidates@;
    let mut best: Option<BrightnessDevice> = None;
    let mut idx: usize = 0;
    while idx < candidates.len()
        invariant
            idx <= s.len(),
            s == candidates@,
            match best {
                None => spec_best_index(s.take(idx as int)) == -1,
                Some(b) => {
                    &&& b.wf()
                    &&& 0 <= spec_best_index(s.take(idx as int)) < idx
                    &&& device_matches_candidate(
                        b,
                        s.take(idx as int)[spec_best_index(s.take(idx as int))],
                    )
                },
            },
        decreases s.len() - idx,
    {
        let candidate = &candidates[idx];
        if let Some(name) = &candidate.sysname {
            if let Some(text) = &candidate.max_brightness_text {
                match BrightnessDevice::new("backlight", name.clone(), text.as_str()) {
                    Ok(device) => {
                        let replace = match &best {
                            None => true,
                            Some(b) => device.max_brightness() > b.max_brightness(),
                        };
                        if replace {
                            best = Some(device);
                        }
                    },
                    Err(_) => {},
                }
            }
        }
        proof {
            assert(s.take(idx as int + 1).drop_last() =~= s.take(idx as int));
            assert(s.take(idx as int + 1).last() == s[idx as int]);
            assert(forall|j: int|
                0 <= j < idx ==> s.take(idx as int + 1)[j] == #[trigger] s.take(idx as int)[j]);
        }
        idx = idx + 1;
    }
    proof {
        assert(s.take(s.len() as int) =~= s);
    }
    best
}

/// The display-brightness values served over the user-session bus;
/// `-1` is the explicit sentinel for "no device present", so the view
/// can render a disabled slider without a special case.
#[derive(Debug, Clone, Copy, PartialEq, Eq, Structural)]
pub enum DisplayInfo {
    Available { current_brightness: i32, max_brightness: i32, min_brightness: i32 },
}

/// A brightness value as the signed interface reports it: `-1` when
/// there is none, or when the value cannot be carried by the signed
/// field.
pub open spec fn sentinel_i32(v: Option<u32>) -> i32 {
    match v {
        Some(x) => if x <= i32::MAX {
            x as i32
        } else {
            -1i32
        },
        None => -1i32,
    }
}

/// The arbitrated backlight device, as served to the user session; it
/// may be absent, in which case every value reported is the `-1`
/// sentinel.
pub struct DisplayBrightnessDevice {
    display_brightness_device: Option<BrightnessDevice>,
}

impl DisplayBrightnessDevice {
    /// The wrapped device, if one was discovered.
    pub closed spec fn spec_device(self) -> Option<BrightnessDevice> {
        self.display_brightness_device
    }

    /// The wrapped device, when present, satisfies its invariant.
    pub open spec fn wf(self) -> bool {
        match self.spec_device() {
            Some(d) => d.wf(),
            None => true,
        }
    }

    /// Wraps the arbitrated device, or its absence.
    pub fn new(display_brightness_device: Option<BrightnessDevice>) -> (r: Self)
        ensures
            r.spec_device() == display_brightness_device,
    {
        DisplayBrightnessDevice { display_brightness_device }
    }

    /// The current brightness, computed from a fresh reading of the
    /// device's live state file: the sentinel when no device is
    /// present, the reading could not be made, or it does not parse.
    pub fn current_brightness(&self, reading: Option<&str>) -> (r: i32)
        ensures
            r == match self.spec_device() {
                Some(_) => match reading {
                    Some(t) => sentinel_i32(spec_parse_u32(t@)),
                    None => -1i32,
                },
                None => -1i32,
            },
    {
        if self.display_brightness_device.is_none() {
            return -1;
        }
        match reading {
            Some(text) => {
                match parse_device_value(text) {
                    Some(v) => {
                        if v <= i32::MAX as u32 {
                            v as i32
                        } else {
                            -1
                        }
                    },
                    None => -1i32,
                }
            },
            None => -1i32,
        }
    }

    /// The maximum accepted brightness, or the sentinel.
    pub fn max_brightness(&self) -> (r: i32)
        ensures
            r == match self.spec_device() {
                Some(d) => sentinel_i32(Some(d.spec_max())),
                None => -1i32,
            },
    {
        match &self.display_brightness_device {
            Some(t) => {
                let v: u32 = t.max_brightness();
                if v <= i32::MAX as u32 {
                    v as i32
                } else {
                    -1
                }
            },
            None => -1i32,
        }
    }

    /// The minimum accepted brightness, or the sentinel.
    pub fn min_brightness(&self) -> (r: i32)
        ensures
            r == match self.spec_device() {
                Some(d) => sentinel_i32(Some(d.spec_min())),
                None => -1i32,
            },
    {
        match &self.display_brightness_device {
            Some(t) => {
                let v: u32 = t.min_brightness();
                if v <= i32::MAX as u32 {
                    v as i32
                } else {
                    -1
                }
            },
            None => -1i32,
        }
    }

    /// Clamps a requested brightness into the wrapped device's range;
    /// the caller applies the returned value through the privileged
    /// session call.  Nothing to apply when no device is present.
    pub fn set_brightness(&self, value: i32) -> (r: Option<u32>)
        requires
            self.wf(),
        ensures
            r == match self.spec_device() {
                Some(d) => Some(spec_clamp(value as int, d.spec_min(), d.spec_max())),
                None => Option::<u32>::None,
            },
    {
        match &self.display_brightness_device {
            Some(device) => Some(device.set_brightness(value)),
            None => None,
        }
    }
}

/// Translates one brightness change notification into a domain event.
/// The watcher re-reads the cached current/max/min triple; a cache miss
/// on a value is treated as that value's default.
pub fn display_event(current: Option<i32>, max: Option<i32>, min: Option<i32>) -> (r: DisplayInfo)
    ensures
        r == (DisplayInfo::Available {
            current_brightness: match current {
                Some(v) => v,
                None => 0,
            },
            max_brightness: match max {
                Some(v) => v,
                None => 0,
            },
            min_brightness: match min {
                Some(v) => v,
                None => 0,
            },
        }),
{
    DisplayInfo::Available {
        current_brightness: match current {
            Some(v) => v,
            None => 0,
        },
        max_brightness: match max {
            Some(v) => v,
            None => 0,
        },
        min_brightness: match min {
            Some(v) => v,
            None => 0,
        },
    }
}

} // verus!
