use vstd::prelude::*;

verus! {

use crate::types::payloads::{GetLogStream};
use crate::types::td_type::opt_str_view;
use crate::utils::fresh_request_extra;

/// TRAIT | Describes a stream to which TDLib internal log is written
pub trait TDLogStream {}

/// Describes a stream to which TDLib internal log is written
#[derive(Debug, Clone, PartialEq)]
pub enum LogStream {
    _Default,
    /// Returns information about currently used log stream for internal logging of TDLib. This is an offline method. Can be called before authorization. Can be called synchronously
    GetLogStream(GetLogStream),
    /// The log is written to stderr or an OS specific log
    Default(LogStreamDefault),
    /// The log is written nowhere
    Empty(LogStreamEmpty),
    /// The log is written to a file
    File(LogStreamFile),
}

impl Default for LogStream {
    fn default() -> (r: Self)
        ensures
            r is _Default,
    {
        LogStream::_Default
    }
}

impl LogStream {
    pub fn _is_default(&self) -> (r: bool)
        ensures
            r == (self is _Default),
    {
        matches!(self, LogStream::_Default)
    }
}

/// The log is written to stderr or an OS specific log
#[derive(Debug, Clone, PartialEq)]
pub struct LogStreamDefault {
    pub td_name: String,
    pub extra: Option<String>,
}

impl LogStreamDefault {
    pub fn builder() -> (r: RTDLogStreamDefaultBuilder)
        ensures
            r.inner.td_name@ == "logStreamDefault"@,
            r.inner.extra is Some,
            r.inner.extra->0@.len() == 36,
    {
        let inner = LogStreamDefault {
            td_name: "logStreamDefault".to_string(),
            extra: Some(fresh_request_extra()),
        };
        RTDLogStreamDefaultBuilder { inner }
    }
}

pub struct RTDLogStreamDefaultBuilder {
    pub inner: LogStreamDefault,
}

impl RTDLogStreamDefaultBuilder {
    pub fn build(self) -> (r: LogStreamDefault)
        ensures
            r == self.inner,
    {
        self.inner
    }
}

/// The log is written nowhere
#[derive(Debug, Clone, PartialEq)]
pub struct LogStreamEmpty {
    pub td_name: String,
    pub extra: Option<String>,
}

impl LogStreamEmpty {
    pub fn builder() -> (r: RTDLogStreamEmptyBuilder)
        ensures
            r.inner.td_name@ == "logStreamEmpty"@,
            r.inner.extra is Some,
            r.inner.extra->0@.len() == 36,
    {
        let inner = LogStreamEmpty {
            td_name: "logStreamEmpty".to_string(),
            extra: Some(fresh_request_extra()),
        };
        RTDLogStreamEmptyBuilder { inner }
    }
}

pub struct RTDLogStreamEmptyBuilder {
    pub inner: LogStreamEmpty,
}

impl RTDLogStreamEmptyBuilder {
    pub fn build(self) -> (r: LogStreamEmpty)
        ensures
            r == self.inner,
    {
        self.inner
    }
}

/// The log is written to a file
#[derive(Debug, Clone, PartialEq)]
pub struct LogStreamFile {
    pub td_name: String,
    pub extra: Option<String>,
    /// Path to the file to where the internal TDLib log will be written
    pub path: String,
    /// The maximum size of the file to where the internal TDLib log is written before the file will be auto-rotated
    pub max_file_size: i64,
}

impl LogStreamFile {
    pub fn builder() -> (r: RTDLogStreamFileBuilder)
        ensures
            r.inner.td_name@ == "logStreamFile"@,
            r.inner.extra is Some,
            r.inner.extra->0@.len() == 36,
            r.inner.path@ == Seq::<char>::empty(),
            r.inner.max_file_size == 0,
    {
        let inner = LogStreamFile {
            td_name: "logStreamFile".to_string(),
            extra: Some(fresh_request_extra()),
            path: String::new(),
            max_file_size: 0,
        };
        RTDLogStreamFileBuilder { inner }
    }

    pub fn path(&self) -> (r: &String)
        ensures
            *r == self.path,
    {
        &self.path
    }

    pub fn max_file_size(&self) -> (r: i64)
        ensures
            r == self.max_file_size,
    {
        self.max_file_size
    }
}

pub struct RTDLogStreamFileBuilder {
    pub inner: LogStreamFile,
}

impl RTDLogStreamFileBuilder {
    pub fn build(self) -> (r: LogStreamFile)
        ensures
            r == self.inner,
    {
        self.inner
    }

    pub fn path(self, path: String) -> (r: Self)
        ensures
            r.inner == (LogStreamFile { path: path, ..self.inner }),
    {
        let mut inner = self.inner;
        inner.path = path;
        RTDLogStreamFileBuilder { inner }
    }

    pub fn max_file_size(self, max_file_size: i64) -> (r: Self)
        ensures
            r.inner == (LogStreamFile { max_file_size: max_file_size, ..self.inner }),
    {
        let mut inner = self.inner;
        inner.max_file_size = max_file_size;
        RTDLogStreamFileBuilder { inner }
    }
}

impl TDLogStream for LogStreamDefault {}
impl TDLogStream for LogStreamEmpty {}
impl TDLogStream for LogStreamFile {}

impl LogStream {
    /// The correlation identifier this value carries, if any.
    pub open spec fn spec_extra(&self) -> Option<Seq<char>> {
        match self {
            LogStream::_Default => None,
            LogStream::GetLogStream(_) => None,
            LogStream::Default(t) => opt_str_view(t.extra),
            LogStream::Empty(t) => opt_str_view(t.extra),
            LogStream::File(t) => opt_str_view(t.extra),
        }
    }

    /// The correlation identifier this value carries, if any.
    pub fn extra(&self) -> (r: Option<&String>)
        ensures
            match r {
                Some(s) => self.spec_extra() == Some(s@),
                None => self.spec_extra() is None,
            },
    {
        let o = match self {
            LogStream::_Default => &None,
            LogStream::GetLogStream(_) => &None,
            LogStream::Default(t) => &t.extra,
            LogStream::Empty(t) => &t.extra,
            LogStream::File(t) => &t.extra,
        };
        match o {
            Some(s) => Some(s),
            None => None,
        }
    }

    /// The wire tag of this value's variant; empty for the hidden
    /// placeholder variant.
    pub open spec fn spec_td_name(&self) -> Seq<char> {
        match self {
            LogStream::_Default => ""@,
            LogStream::GetLogStream(_) => "getLogStream"@,
            LogStream::Default(_) => "logStreamDefault"@,
            LogStream::Empty(_) => "logStreamEmpty"@,
            LogStream::File(_) => "logStreamFile"@,
        }
    }

    /// The wire tag of this value's variant.
    pub fn td_name(&self) -> (r: &str)
        ensures
            r@ == self.spec_td_name(),
    {
        match self {
            LogStream::_Default => "",
            LogStream::GetLogStream(_) => "getLogStream",
            LogStream::Default(_) => "logStreamDefault",
            LogStream::Empty(_) => "logStreamEmpty",
            LogStream::File(_) => "logStreamFile",
        }
    }
}

} // verus!
