use std::io;
use std::num::ParseIntError;
use std::path::PathBuf;
use vstd::prelude::*;

use crate::brightness::{
    all_digits, append_decimal, decimal_text, lemma_decimal_text, parse_u32, u32_text_value,
};
use crate::driver::{check_value, BacklightError};

verus! {

/// An error of `u32::from_str`; carried through opaque.
#[verifier::external_type_specification]
#[verifier::external_body]
pub struct ExParseIntError(ParseIntError);

/// Whether `c` has the Unicode `White_Space` property, as `char::is_whitespace`
/// tells: tab to carriage return, space, next line, no-break space, ogham
/// space mark, the spaces from en quad to hair space, line and paragraph
/// separator, narrow no-break space, medium mathematical space and
/// ideographic space.
pub open spec fn unicode_white_space(c: char) -> bool {
    let x = c as u32;
    ||| 0x09 <= x <= 0x0d
    ||| x == 0x20
    ||| x == 0x85
    ||| x == 0xa0
    ||| x == 0x1680
    ||| 0x2000 <= x <= 0x200a
    ||| x == 0x2028
    ||| x == 0x2029
    ||| x == 0x202f
    ||| x == 0x205f
    ||| x == 0x3000
}

/// The path of the directory that holds the backlight devices.
pub open spec fn backlight_root() -> PathBuf {
    crate::state_store::path_of("/sys/class/backlight"@)
}

/// The directory of the backlight device `name`: `/sys/class/backlight/<name>`.
pub open spec fn device_dir(name: Seq<char>) -> PathBuf {
    crate::state_store::path_of("/sys/class/backlight/"@ + name)
}

/// Whether `c` is whitespace (see [`unicode_white_space`]).
fn is_whitespace(c: char) -> (r: bool)
    ensures
        r == unicode_white_space(c),
{
    let x = c as u32;
    (0x09 <= x && x <= 0x0d) || x == 0x20 || x == 0x85 || x == 0xa0 || x == 0x1680 || (0x2000 <= x && x
        <= 0x200a) || x == 0x2028 || x == 0x2029 || x == 0x202f || x == 0x205f || x == 0x3000
}

/// Calls `u32::from_str` on `text`, which it refuses, for the error it
/// reports. Nothing is claimed of the error.
#[verifier::external_body]
fn u32_parse_error(text: &str) -> ParseIntError
    requires
        u32_text_value(text@) is None,
{
    text.parse::<u32>().unwrap_err()
}

/// Whether `io::Error::kind` gives `InvalidData` for `e`.
pub uninterp spec fn kind_is_invalid_data(e: io::Error) -> bool;

/// Whether `io::Error::kind` gives `PermissionDenied` for `e`.
pub uninterp spec fn kind_is_permission_denied(e: io::Error) -> bool;

/// Calls `io::Error::new` with kind `InvalidData` around `e`. Claimed: the
/// error made has that kind (std documents that `kind` gives the kind the
/// error was made with).
#[verifier::external_body]
fn invalid_data(e: ParseIntError) -> (r: io::Error)
    ensures
        kind_is_invalid_data(r),
{
    io::Error::new(io::ErrorKind::InvalidData, e)
}

/// Calls `io::Error::kind` and tells whether it is `PermissionDenied`.
/// Claimed: the result is the named property of `e`.
#[verifier::external_body]
fn is_permission_denied(e: &io::Error) -> (r: bool)
    ensures
        r == kind_is_permission_denied(*e),
{
    e.kind() == io::ErrorKind::PermissionDenied
}

/// `s` without its leading whitespace.
pub open spec fn trim_start(s: Seq<char>) -> Seq<char>
    decreases s.len(),
{
    if s.len() > 0 && unicode_white_space(s[0]) {
        trim_start(s.drop_first())
    } else {
        s
    }
}

/// `s` without its trailing whitespace.
pub open spec fn trim_end(s: Seq<char>) -> Seq<char>
    decreases s.len(),
{
    if s.len() > 0 && unicode_white_space(s.last()) {
        trim_end(s.drop_last())
    } else {
        s
    }
}

/// `s` without its leading and trailing whitespace, as `str::trim` gives it.
pub open spec fn trimmed(s: Seq<char>) -> Seq<char> {
    trim_end(trim_start(s))
}

/// `s` without its leading and trailing whitespace.
pub fn trim(s: &str) -> (r: &str)
    ensures
        r@ == trimmed(s@),
{
    let n = s.unicode_len();
    let mut i: usize = 0;
    assert(s@.subrange(0, n as int) =~= s@);
    while i < n && is_whitespace(s.get_char(i))
        invariant
            i <= n,
            n == s@.len(),
            trim_start(s@) == trim_start(s@.subrange(i as int, n as int)),
        decreases n - i,
    {
        assert(s@.subrange(i as int, n as int).drop_first() =~= s@.subrange(i + 1, n as int));
        i = i + 1;
    }
    if i < n {
        assert(!unicode_white_space(s@.subrange(i as int, n as int)[0]));
    }
    assert(trim_start(s@) == s@.subrange(i as int, n as int));
    let mut j: usize = n;
    while j > i && is_whitespace(s.get_char(j - 1))
        invariant
            i <= j <= n,
            n == s@.len(),
            trim_start(s@) == s@.subrange(i as int, n as int),
            trimmed(s@) == trim_end(s@.subrange(i as int, j as int)),
        decreases j - i,
    {
        assert(s@.subrange(i as int, j as int).drop_last() =~= s@.subrange(i as int, j - 1));
        j = j - 1;
    }
    if j > i {
        assert(s@.subrange(i as int, j as int).last() == s@[j - 1]);
    }
    assert(trim_end(s@.subrange(i as int, j as int)) == s@.subrange(i as int, j as int));
    s.substring_char(i, j)
}

/// Backlight driver that talks to a device under `/sys/class/backlight/<device>`.
#[derive(Debug)]
pub struct SysfsDriver {
    device: String,
    path: PathBuf,
}

impl SysfsDriver {
    /// The device this driver targets.
    pub closed spec fn device(&self) -> Seq<char> {
        self.device@
    }

    /// The directory of the device.
    pub closed spec fn path(&self) -> PathBuf {
        self.path
    }

    /// The directory of the device `device_name`: `/sys/class/backlight/<device_name>`.
    pub fn device_path(device_name: &str) -> (p: PathBuf)
        ensures
            p == device_dir(device_name@),
    {
        let mut text = "/sys/class/backlight/".to_string();
        text.append(device_name);
        crate::state_store::path_buf_from(text.as_str())
    }

    /// The driver of the device `device_name`, whose directory is `path`, given
    /// whether that directory exists.
    pub fn new(device_name: &str, path: PathBuf, is_dir: bool) -> (r: Result<Self, BacklightError>)
        ensures
            match r {
                Ok(d) => is_dir && d.device() == device_name@ && d.path() == path,
                Err(e) => !is_dir && (e matches BacklightError::NotFound { device, path: p }
                    && device@ == device_name@ && p == path),
            },
    {
        if !is_dir {
            return Err(BacklightError::NotFound { device: device_name.to_string(), path });
        }
        Ok(SysfsDriver { device: device_name.to_string(), path })
    }

    /// Identifier of the device this driver targets.
    pub fn name(&self) -> (r: &str)
        ensures
            r@ == self.device(),
    {
        self.device.as_str()
    }

    /// Identifier of this driver backend.
    pub fn driver_name(&self) -> (r: &'static str)
        ensures
            r@ == "sysfs"@,
    {
        "sysfs"
    }

    /// The directory of the device, which holds its attribute files.
    pub fn dir(&self) -> (p: &PathBuf)
        ensures
            *p == self.path(),
    {
        &self.path
    }

    /// The number held by an attribute file of the device, given what reading
    /// it gave: the text, without surrounding whitespace, must be a `u32`.
    pub fn parse_reading(&self, read: Result<String, io::Error>) -> (r: Result<u32, BacklightError>)
        ensures
            match read {
                Err(source) => r matches Err(BacklightError::Io { device, source: s })
                    && device@ == self.device() && s == source,
                Ok(text) => match u32_text_value(trimmed(text@)) {
                    Some(v) => r == Ok::<u32, BacklightError>(v),
                    None => r matches Err(BacklightError::Io { device, source }) && device@ == self.device()
                        && kind_is_invalid_data(source),
                },
            },
    {
        match read {
            Err(source) => Err(BacklightError::Io { device: self.device.clone(), source }),
            Ok(text) => {
                let t = trim(text.as_str());
                match parse_u32(t) {
                    Some(v) => Ok(v),
                    None => {
                        let source = invalid_data(u32_parse_error(t));
                        Err(BacklightError::Io { device: self.device.clone(), source })
                    },
                }
            },
        }
    }

    /// The text to write to the brightness file for `value`: its decimal digits.
    pub fn brightness_text(&self, value: u32) -> (r: String)
        ensures
            r@ == decimal_text(value as nat),
    {
        let mut text = String::new();
        append_decimal(value, &mut text);
        assert(text@ =~= decimal_text(value as nat));
        text
    }

    /// Checks a brightness to write against the maximum brightness `max`
    /// that the device reported.
    pub fn check_brightness(&self, value: u32, max: u32) -> (r: Result<(), BacklightError>)
        ensures
            r is Ok <==> value <= max,
            r matches Err(e) ==> e matches BacklightError::InvalidValue { device, value: v, max: m }
                && device@ == self.device() && v == value && m == max,
    {
        check_value(self.device.as_str(), value, max)
    }

    /// The error for a failed write of the brightness file: refused
    /// permission, or any other I/O failure.
    pub fn write_error(&self, source: io::Error) -> (e: BacklightError)
        ensures
            e matches BacklightError::PermissionDenied { device, source: s } ==> device@ == self.device() && s
                == source,
            e matches BacklightError::Io { device, source: s } ==> device@ == self.device() && s == source,
            e is PermissionDenied || e is Io,
            e is PermissionDenied <==> kind_is_permission_denied(source),
    {
        if is_permission_denied(&source) {
            BacklightError::PermissionDenied { device: self.device.clone(), source }
        } else {
            BacklightError::Io { device: self.device.clone(), source }
        }
    }
}

/// The identifier under which failures to list the backlight devices are reported.
pub open spec fn root_name() -> Seq<char> {
    "/sys/class/backlight"@
}

/// An entry of the device listing that names an existing device directory.
pub open spec fn entry_ok(entry: Result<(String, bool), io::Error>) -> bool {
    entry matches Ok((_, true))
}

/// `e` is the error that the listing entry `entry` gives.
pub open spec fn entry_failure(entry: Result<(String, bool), io::Error>, e: BacklightError) -> bool {
    match entry {
        Err(source) => e matches BacklightError::Io { device, source: s } && device@ == root_name() && s == source,
        Ok((name, present)) => !present && (e matches BacklightError::NotFound { device, path }
            && device@ == name@ && path == device_dir(name@)),
    }
}

/// `d` is the driver of the device that the listing entry `entry` names.
pub open spec fn driver_for(entry: Result<(String, bool), io::Error>, d: SysfsDriver) -> bool {
    entry matches Ok((name, true)) && d.device() == name@ && d.path() == device_dir(name@)
}

/// Discovers sysfs backlight devices under `/sys/class/backlight`.
#[derive(Debug, Default, Clone, Copy)]
pub struct SysfsScanner;

impl SysfsScanner {
    pub fn new() -> (r: Self) {
        SysfsScanner
    }

    /// The directory that holds the backlight devices.
    pub fn root_path(&self) -> (p: PathBuf)
        ensures
            p == backlight_root(),
    {
        crate::state_store::path_buf_from("/sys/class/backlight")
    }

    /// The drivers of the devices that listing the backlight directory found:
    /// `listing` is `None` when the directory does not exist (no devices, not
    /// an error), or what listing it gave, each entry with its name and whether
    /// its directory exists. The first entry that fails makes the scan fail.
    pub fn scan_listing(&self, listing: Option<Result<Vec<Result<(String, bool), io::Error>>, io::Error>>) -> (r:
        Result<Vec<SysfsDriver>, BacklightError>)
        ensures
            match listing {
                None => r matches Ok(v) && v@.len() == 0,
                Some(Err(source)) => r matches Err(BacklightError::Io { device, source: s }) && device@ == root_name()
                    && s == source,
                Some(Ok(entries)) => match r {
                    Ok(v) => v@.len() == entries@.len() && forall|i: int|
                        0 <= i < v@.len() ==> driver_for(entries@[i], #[trigger] v@[i]),
                    Err(e) => exists|k: int|
                        #![trigger entries@[k]]
                        0 <= k < entries@.len() && (forall|j: int| 0 <= j < k ==> entry_ok(#[trigger] entries@[j]))
                            && entry_failure(entries@[k], e),
                },
            },
    {
        proof {
            reveal_strlit("/sys/class/backlight");
        }
        match listing {
            None => Ok(Vec::new()),
            Some(Err(source)) => Err(BacklightError::Io { device: "/sys/class/backlight".to_string(), source }),
            Some(Ok(entries)) => {
                let ghost all = entries@;
                let mut rest = entries;
                let mut drivers: Vec<SysfsDriver> = Vec::new();
                while rest.len() > 0
                    invariant
                        listing matches Some(Ok(es)) && es@ == all,
                        drivers@.len() + rest@.len() == all.len(),
                        rest@ == all.subrange(drivers@.len() as int, all.len() as int),
                        forall|i: int| 0 <= i < drivers@.len() ==> driver_for(all[i], #[trigger] drivers@[i]),
                    decreases rest@.len(),
                {
                    let ghost k = drivers@.len() as int;
                    let entry = rest.remove(0);
                    assert(entry == all[k]);
                    assert(rest@ =~= all.subrange(k + 1, all.len() as int));
                    assert forall|j: int| 0 <= j < k implies entry_ok(#[trigger] all[j]) by {
                        assert(driver_for(all[j], drivers@[j]));
                    }
                    match entry {
                        Err(source) => {
                            return Err(BacklightError::Io { device: "/sys/class/backlight".to_string(), source });
                        },
                        Ok((name, present)) => {
                            let path = SysfsDriver::device_path(name.as_str());
                            match SysfsDriver::new(name.as_str(), path, present) {
                                Ok(d) => {
                                    drivers.push(d);
                                },
                                Err(e) => {
                                    return Err(e);
                                },
                            }
                        },
                    }
                }
                Ok(drivers)
            },
        }
    }
}

/// What is written to the brightness file for a value is read back from it
/// as that value: reading the brightness right after setting it gives the
/// value set.
pub proof fn law_written_brightness_reads_back(value: u32)
    ensures
        trimmed(decimal_text(value as nat)) == decimal_text(value as nat),
        u32_text_value(trimmed(decimal_text(value as nat))) == Some(value),
{
    let t = decimal_text(value as nat);
    lemma_decimal_text(value as nat);
    assert(all_digits(t));
    assert(!unicode_white_space(t[0]));
    assert(!unicode_white_space(t.last()));
    assert(trim_start(t) == t);
    assert(trim_end(t) == t);
}

} // verus!
