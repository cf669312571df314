//! The error type shared by every fallible operation of the binding, and the
//! translation of native status codes into it.

use vstd::prelude::*;
use vstd::string::to_string_from_display_ensures;

use crate::decimal::{append_decimal, decimal_of};
use crate::status::{code_of, is_known_code, name_of, status_of, Status};

verus! {

/// std's `io::Error`, carried opaquely by `Error::Io`; its text comes from
/// its `Display` impl through `to_string`.
#[verifier::external_type_specification]
#[verifier::external_body]
pub struct ExIoError(std::io::Error);

/// std's `string::FromUtf8Error`, carried opaquely by `Error::FromUtf8Error`;
/// its text comes from its `Display` impl through `to_string`.
#[verifier::external_type_specification]
#[verifier::external_body]
pub struct ExFromUtf8Error(std::string::FromUtf8Error);

/// The result type of every fallible operation of the binding.
pub type Result<T> = core::result::Result<T, Error>;

/// Every kind of failure that the binding reports.
///
/// The `String` variant is a catch-all for locally raised errors and may
/// shrink as more specific variants are added.
#[derive(Debug)]
pub enum Error {
    /// A value could not be converted; carries an explanation.
    Conversion(String),
    /// A native call returned a status other than `CL_SUCCESS`.
    Status {
        status: Status,
        status_string: String,
        fn_name: &'static str,
        fn_info: String,
        desc: String,
    },
    /// A locally raised error with free-form text.
    String(String),
    /// A local input/output operation failed.
    Io(std::io::Error),
    /// A byte sequence was not valid UTF-8 text.
    FromUtf8Error(std::string::FromUtf8Error),
    /// A shape could not be resolved and none was given.
    UnspecifiedDimensions,
}

/// The explanation carried by `Error::UnspecifiedDimensions`.
pub open spec fn dimensions_text() -> Seq<char> {
    "Cannot convert to a valid set of dimensions. Please specify some dimensions."@
}

/// The documentation page of the native function `fn_name`, at its section on errors.
pub open spec fn docs_url(fn_name: Seq<char>) -> Seq<char> {
    "https://www.khronos.org/registry/cl/sdk/1.2/docs/man/xhtml/"@ + fn_name + ".html#errors"@
}

/// The call's arguments as the diagnostic shows them: quoted in parentheses, or nothing.
pub open spec fn info_text(fn_info: Seq<char>) -> Seq<char> {
    if fn_info.len() == 0 {
        Seq::empty()
    } else {
        "(\""@ + fn_info + "\")"@
    }
}

/// The diagnostic rendered for a call of `fn_name` with arguments `fn_info`
/// that failed with `status`.
pub open spec fn status_desc(status: Status, fn_name: Seq<char>, fn_info: Seq<char>) -> Seq<char> {
    "\n\n################################ OPENCL ERROR ############################### \n\nError executing function: "@ + fn_name + info_text(fn_info) + "  \n\nStatus error code: "@ + name_of(status) + " ("@
        + decimal_of(code_of(status) as int) + ")  \n\nPlease visit the following url for more information: \n\n"@ + docs_url(fn_name) + "  \n\n############################################################################# \n"@
}

/// Whether `t` occurs in `s` as a contiguous run.
pub open spec fn contains(s: Seq<char>, t: Seq<char>) -> bool {
    exists|i: int| 0 <= i && i + t.len() <= s.len() && #[trigger] s.subrange(i, i + t.len()) == t
}

impl Error {
    /// Whether this error is the failure of a call of `fn_name` with
    /// arguments `fn_info` that returned `status`, with its symbolic name
    /// and rendered diagnostic.
    pub open spec fn is_status_failure(
        self,
        status: Status,
        fn_name: Seq<char>,
        fn_info: Seq<char>,
    ) -> bool {
        match self {
            Error::Status { status: s, status_string, fn_name: n, fn_info: i, desc } => {
                &&& s == status
                &&& status_string@ == name_of(status)
                &&& n@ == fn_name
                &&& i@ == fn_info
                &&& desc@ == status_desc(status, fn_name, fn_info)
            },
            _ => false,
        }
    }

    /// Whether `r` is a description of this error: the carried text, the
    /// rendered diagnostic, the fixed explanation, or what std's `to_string`
    /// gives for a wrapped foreign error.
    pub open spec fn describes(&self, r: String) -> bool {
        match self {
            Error::Conversion(s) => r@ == s@,
            Error::Status { desc, .. } => r@ == desc@,
            Error::String(s) => r@ == s@,
            Error::Io(e) => to_string_from_display_ensures::<std::io::Error>(e, r),
            Error::FromUtf8Error(e) => to_string_from_display_ensures::<
                std::string::FromUtf8Error,
            >(e, r),
            Error::UnspecifiedDimensions => r@ == dimensions_text(),
        }
    }

    /// The status code of a `Status` error.
    pub open spec fn status_spec(self) -> Option<Status> {
        match self {
            Error::Status { status, .. } => Some(status),
            _ => None,
        }
    }

    /// Returns a new `Error::String` with the text `desc`.
    pub fn new(desc: &str) -> (r: Error)
        ensures
            r matches Error::String(s) && s@ == desc@,
    {
        Error::String(String::from_str(desc))
    }

    /// Returns `Err(Error::String(desc))`.
    pub fn err<T>(desc: &str) -> (r: Result<T>)
        ensures
            r matches Err(Error::String(s)) && s@ == desc@,
    {
        Err(Error::String(String::from_str(desc)))
    }

    /// Returns `Err(Error::Conversion(desc))`.
    pub fn err_conversion<T>(desc: &str) -> (r: Result<T>)
        ensures
            r matches Err(Error::Conversion(s)) && s@ == desc@,
    {
        Err(Error::Conversion(String::from_str(desc)))
    }

    /// Returns the status code of a `Status` error, and `None` for every other variant.
    pub fn status(&self) -> (r: Option<Status>)
        ensures
            r == self.status_spec(),
    {
        match self {
            Error::Status { status, .. } => Some(*status),
            _ => None,
        }
    }

    /// Translates the status code `errcode` that the native function
    /// `fn_name` returned, called with arguments `fn_info`: `CL_SUCCESS` gives
    /// `Ok` with `T`'s default value, every other status a `Status` error
    /// that carries the rendered diagnostic.
    pub fn err_status<T: Default>(
        errcode: i32,
        fn_name: &'static str,
        fn_info: &str,
    ) -> (r: Result<T>)
        requires
            is_known_code(errcode),
        ensures
            errcode == 0 ==> (r matches Ok(v) && call_ensures(T::default, (), v)),
            errcode != 0 ==> (r matches Err(e) && e.is_status_failure(
                status_of(errcode)->Some_0,
                fn_name@,
                fn_info@,
            )),
            errcode != 0 ==> (r matches Err(e) && e.status_spec() matches Some(st) && code_of(st)
                == errcode),
    {
        let status = Status::from_i32(errcode).unwrap();
        match status {
            Status::CL_SUCCESS => Ok(T::default()),
            _ => {
                let desc = fmt_status_desc(status, fn_name, fn_info);
                let status_string = String::from_str(status.name());
                Err(
                    Error::Status {
                        status: status,
                        status_string: status_string,
                        fn_name: fn_name,
                        fn_info: String::from_str(fn_info),
                        desc: desc,
                    },
                )
            },
        }
    }

    /// Puts `txt` in front of the text of a `String` error; leaves every
    /// other variant as it is.
    pub fn prepend(&mut self, txt: &str)
        ensures
            match *old(self) {
                Error::String(s) => *final(self) matches Error::String(t) && t@ == txt@ + s@,
                _ => *final(self) == *old(self),
            },
    {
        let joined: Option<String> = match &*self {
            Error::String(s) => {
                let mut t = String::from_str(txt);
                t.append(s.as_str());
                Some(t)
            },
            _ => None,
        };
        if let Some(t) = joined {
            *self = Error::String(t);
        }
    }

    /// The description of this error: the carried text, the rendered
    /// diagnostic, a fixed explanation, or that of the wrapped foreign error.
    pub fn description(&self) -> (r: String)
        ensures
            self.describes(r),
    {
        match self {
            Error::Conversion(s) => s.clone(),
            Error::Status { desc, .. } => desc.clone(),
            Error::String(s) => s.clone(),
            Error::Io(e) => e.to_string(),
            Error::FromUtf8Error(e) => e.to_string(),
            Error::UnspecifiedDimensions => String::from_str(
                "Cannot convert to a valid set of dimensions. Please specify some dimensions.",
            ),
        }
    }

    /// Renders this error for display: its description.
    pub fn display(&self) -> (r: String)
        ensures
            self.describes(r),
    {
        self.description()
    }
}

/// Renders the diagnostic for a call of `fn_name` with arguments `fn_info`
/// that failed with `status`.
fn fmt_status_desc(status: Status, fn_name: &'static str, fn_info: &str) -> (r: String)
    ensures
        r@ == status_desc(status, fn_name@, fn_info@),
{
    let mut r = String::from_str("\n\n################################ OPENCL ERROR ############################### \n\nError executing function: ");
    r.append(fn_name);
    if !fn_info.is_empty() {
        r.append("(\"");
        r.append(fn_info);
        r.append("\")");
    }
    r.append("  \n\nStatus error code: ");
    r.append(status.name());
    r.append(" (");
    append_decimal(&mut r, status.as_i32());
    r.append(")  \n\nPlease visit the following url for more information: \n\n");
    r.append("https://www.khronos.org/registry/cl/sdk/1.2/docs/man/xhtml/");
    r.append(fn_name);
    r.append(".html#errors");
    r.append("  \n\n############################################################################# \n");
    assert(r@ =~= status_desc(status, fn_name@, fn_info@));
    r
}

impl From<String> for Error {
    /// Wraps `desc` as a `String` error.
    fn from(desc: String) -> (r: Error) {
        Error::String(desc)
    }
}

impl vstd::std_specs::convert::FromSpecImpl<String> for Error {
    open spec fn obeys_from_spec() -> bool {
        true
    }

    open spec fn from_spec(v: String) -> Error {
        Error::String(v)
    }
}

impl<'a> From<&'a str> for Error {
    /// Copies `desc` into a `String` error.
    fn from(desc: &'a str) -> (r: Error)
        ensures
            r matches Error::String(s) && s@ == desc@,
    {
        Error::String(String::from_str(desc))
    }
}

impl<'a> vstd::std_specs::convert::FromSpecImpl<&'a str> for Error {
    open spec fn obeys_from_spec() -> bool {
        false
    }

    open spec fn from_spec(v: &'a str) -> Error {
        arbitrary()
    }
}

impl From<std::io::Error> for Error {
    /// Wraps a failed input/output operation.
    fn from(err: std::io::Error) -> (r: Error) {
        Error::Io(err)
    }
}

impl vstd::std_specs::convert::FromSpecImpl<std::io::Error> for Error {
    open spec fn obeys_from_spec() -> bool {
        true
    }

    open spec fn from_spec(v: std::io::Error) -> Error {
        Error::Io(v)
    }
}

impl From<std::string::FromUtf8Error> for Error {
    /// Wraps a failed decoding of bytes as UTF-8 text.
    fn from(err: std::string::FromUtf8Error) -> (r: Error) {
        Error::FromUtf8Error(err)
    }
}

impl vstd::std_specs::convert::FromSpecImpl<std::string::FromUtf8Error> for Error {
    open spec fn obeys_from_spec() -> bool {
        true
    }

    open spec fn from_spec(v: std::string::FromUtf8Error) -> Error {
        Error::FromUtf8Error(v)
    }
}

impl From<Error> for String {
    /// The description of `e`.
    fn from(e: Error) -> (r: String)
        ensures
            e.describes(r),
    {
        e.description()
    }
}

impl vstd::std_specs::convert::FromSpecImpl<Error> for String {
    open spec fn obeys_from_spec() -> bool {
        false
    }

    open spec fn from_spec(v: Error) -> String {
        arbitrary()
    }
}

/// The description of an error made from a string is that string, unchanged.
pub proof fn lemma_from_string_described(desc: String, r: String)
    ensures
        <Error as vstd::std_specs::convert::FromSpec<String>>::from_spec(desc).describes(r)
            <==> r@ == desc@,
{
}

/// The description of an error made from a failed input/output operation is
/// what std's `to_string` gives for that failure.
pub proof fn lemma_from_io_described(err: std::io::Error, r: String)
    ensures
        <Error as vstd::std_specs::convert::FromSpec<std::io::Error>>::from_spec(err).describes(r)
            <==> to_string_from_display_ensures::<std::io::Error>(&err, r),
{
}

/// The description of an error made from a failed UTF-8 decoding is what
/// std's `to_string` gives for that failure.
pub proof fn lemma_from_utf8_described(err: std::string::FromUtf8Error, r: String)
    ensures
        <Error as vstd::std_specs::convert::FromSpec<std::string::FromUtf8Error>>::from_spec(
            err,
        ).describes(r) <==> to_string_from_display_ensures::<std::string::FromUtf8Error>(&err, r),
{
}

/// An error raised by the binding itself has one description: whatever
/// `description` and `display` return agree.
pub proof fn lemma_description_unique(e: Error, r1: String, r2: String)
    requires
        !(e is Io),
        !(e is FromUtf8Error),
        e.describes(r1),
        e.describes(r2),
    ensures
        r1@ == r2@,
{
}

/// The description of a failed native call names the function, the symbolic
/// status with its decimal code, and the function's documentation page.
pub proof fn lemma_status_description_contents(
    e: Error,
    status: Status,
    fn_name: Seq<char>,
    fn_info: Seq<char>,
    r: String,
)
    requires
        e.is_status_failure(status, fn_name, fn_info),
        e.describes(r),
    ensures
        contains(r@, fn_name),
        contains(r@, name_of(status)),
        contains(r@, decimal_of(code_of(status) as int)),
        contains(r@, name_of(status) + " ("@ + decimal_of(code_of(status) as int) + ")"@),
        contains(r@, fn_name + info_text(fn_info)),
        contains(r@, docs_url(fn_name)),
{
    reveal_strlit("\n\n################################ OPENCL ERROR ############################### \n\nError executing function: ");
    reveal_strlit("  \n\nStatus error code: ");
    reveal_strlit(" (");
    reveal_strlit(")");
    reveal_strlit(")  \n\nPlease visit the following url for more information: \n\n");
    reveal_strlit("  \n\n############################################################################# \n");
    let d = r@;
    let head = "\n\n################################ OPENCL ERROR ############################### \n\nError executing function: "@;
    let info = info_text(fn_info);
    let name = name_of(status);
    let dec = decimal_of(code_of(status) as int);
    let url = docs_url(fn_name);
    let at_name = head.len() as int;
    let at_status = at_name + fn_name.len() + info.len() + "  \n\nStatus error code: "@.len();
    let at_dec = at_status + name.len() + 2;
    let at_url = at_dec + dec.len() + ")  \n\nPlease visit the following url for more information: \n\n"@.len();
    assert(d.subrange(at_name, at_name + fn_name.len()) =~= fn_name);
    assert(d.subrange(at_name, at_name + (fn_name + info).len()) =~= fn_name + info);
    assert(d.subrange(at_status, at_status + name.len()) =~= name);
    assert(d.subrange(at_dec, at_dec + dec.len()) =~= dec);
    assert(d.subrange(at_status, at_status + (name + " ("@ + dec + ")"@).len()) =~= name
        + " ("@ + dec + ")"@);
    assert(d.subrange(at_url, at_url + url.len()) =~= url);
}

} // verus!
