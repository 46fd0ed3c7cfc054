//! The kernel's log control call: its actions, its errors, and the
//! arguments that a call is made with.

use vstd::prelude::*;
use vstd::string::StringExecFns;

verus! {

/// What can go wrong before the kernel is asked.
#[derive(Debug, PartialEq, Eq)]
pub enum KLogCtlError {
    /// A length does not fit the signed integer that the call takes.
    IntegerOutOfBound(String),
}

impl KLogCtlError {
    /// The text that stands for the error where it is shown.
    pub open spec fn text(self) -> Seq<char> {
        match self {
            KLogCtlError::IntegerOutOfBound(detail) => "KLogCtlError:: "@ + detail@,
        }
    }

    /// The error as text.
    pub fn to_string(&self) -> (text: String)
        ensures
            text@ == self.text(),
    {
        match self {
            KLogCtlError::IntegerOutOfBound(detail) => {
                let mut text = "KLogCtlError:: ".to_owned();
                text.append(detail.as_str());
                text
            },
        }
    }
}

/// The actions of the kernel's log control call.
#[derive(Clone, Copy, Debug, PartialEq, Eq, Structural)]
pub enum KLogType {
    SyslogActionClose,
    SyslogActionOpen,
    SyslogActionRead,
    SyslogActionReadAll,
    SyslogActionReadClear,
    SyslogActionClear,
    SyslogActionConsoleOff,
    SyslogActionConsoleOn,
    SyslogActionConsoleLevel,
    SyslogActionSizeUnread,
    SyslogActionSizeBuffer,
}

impl KLogType {
    /// The number by which the kernel knows the action: its place in the
    /// list of actions, counted from zero.
    pub open spec fn number(self) -> int {
        match self {
            KLogType::SyslogActionClose => 0,
            KLogType::SyslogActionOpen => 1,
            KLogType::SyslogActionRead => 2,
            KLogType::SyslogActionReadAll => 3,
            KLogType::SyslogActionReadClear => 4,
            KLogType::SyslogActionClear => 5,
            KLogType::SyslogActionConsoleOff => 6,
            KLogType::SyslogActionConsoleOn => 7,
            KLogType::SyslogActionConsoleLevel => 8,
            KLogType::SyslogActionSizeUnread => 9,
            KLogType::SyslogActionSizeBuffer => 10,
        }
    }

    /// The number by which the kernel knows the action.
    pub fn code(&self) -> (code: i32)
        ensures
            code == self.number(),
    {
        match self {
            KLogType::SyslogActionClose => 0,
            KLogType::SyslogActionOpen => 1,
            KLogType::SyslogActionRead => 2,
            KLogType::SyslogActionReadAll => 3,
            KLogType::SyslogActionReadClear => 4,
            KLogType::SyslogActionClear => 5,
            KLogType::SyslogActionConsoleOff => 6,
            KLogType::SyslogActionConsoleOn => 7,
            KLogType::SyslogActionConsoleLevel => 8,
            KLogType::SyslogActionSizeUnread => 9,
            KLogType::SyslogActionSizeBuffer => 10,
        }
    }

    /// The action that reads the whole buffer, and clears it afterwards if
    /// `clear` is set.
    pub fn for_snapshot(clear: bool) -> (action: KLogType)
        ensures
            clear ==> action == KLogType::SyslogActionReadClear,
            !clear ==> action == KLogType::SyslogActionReadAll,
    {
        if clear {
            KLogType::SyslogActionReadClear
        } else {
            KLogType::SyslogActionReadAll
        }
    }
}

/// The character of a decimal digit.
pub open spec fn digit(value: nat) -> char
    recommends
        value < 10,
{
    ('0' as nat + value) as char
}

/// A number written in decimal, without leading zeros.
pub open spec fn decimal(value: nat) -> Seq<char>
    decreases value,
{
    if value < 10 {
        seq![digit(value)]
    } else {
        decimal(value / 10).push(digit(value % 10))
    }
}

/// Appends `value`, written in decimal, to `text`.
fn push_decimal(text: &mut String, value: usize)
    ensures
        final(text)@ == old(text)@ + decimal(value as nat),
    decreases value,
{
    if value >= 10 {
        push_decimal(text, value / 10);
    }
    let last: u8 = (value % 10) as u8;
    text.push((48u8 + last) as char);
    assert(final(text)@ =~= old(text)@ + decimal(value as nat));
}

/// What an error says of a buffer whose length does not fit.
pub open spec fn out_of_bound_detail(length: usize) -> Seq<char> {
    "Error converting usize "@ + decimal(length as nat) + " into i32: TryFromIntError(())"@
}

/// The two numbers that a call into the kernel log takes beside the buffer:
/// the number of the action and the length of the buffer. A buffer too long
/// for a signed 32-bit length is an error.
pub fn klogctl_arguments(klogtype: KLogType, buffer_len: usize) -> (arguments: Result<
    (i32, i32),
    KLogCtlError,
>)
    ensures
        buffer_len <= i32::MAX ==> arguments == Ok::<(i32, i32), KLogCtlError>(
            (klogtype.number() as i32, buffer_len as i32),
        ),
        buffer_len > i32::MAX ==> arguments is Err && arguments->Err_0.text() == "KLogCtlError:: "@
            + out_of_bound_detail(buffer_len),
{
    match i32::try_from(buffer_len) {
        Ok(length) => Ok((klogtype.code(), length)),
        Err(_) => {
            let mut detail = "Error converting usize ".to_owned();
            push_decimal(&mut detail, buffer_len);
            detail.append(" into i32: TryFromIntError(())");
            Err(KLogCtlError::IntegerOutOfBound(detail))
        },
    }
}

} // verus!
