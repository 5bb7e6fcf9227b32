//! The two message kinds that travel over the byte channels, and what each
//! of them is as a mathematical value.

use vstd::prelude::*;

verus! {

/// What a client asks of the server.
#[derive(Debug, Clone, PartialEq, Eq)]
pub enum Request {
    GetFileSize { path: Vec<u8> },
    GetFileContent { path: Vec<u8> },
}

/// What the server answers.
#[derive(Debug, Clone, PartialEq, Eq)]
pub enum Response {
    FileSize(u64),
    FileContent(Vec<u8>),
}

/// A response read in place: the same shape as [`Response`], with the payload
/// borrowed from the received bytes.
#[derive(Debug, Clone, Copy, PartialEq, Eq)]
pub enum ResponseRef<'a> {
    FileSize(u64),
    FileContent(&'a [u8]),
}

/// A request as a value: its kind and the bytes of its path.
pub enum RequestView {
    GetFileSize { path: Seq<u8> },
    GetFileContent { path: Seq<u8> },
}

/// A response as a value, shared by the owning and the borrowing form.
pub enum ResponseView {
    FileSize(u64),
    FileContent(Seq<u8>),
}

impl View for Request {
    type V = RequestView;

    open spec fn view(&self) -> RequestView {
        match *self {
            Request::GetFileSize { path } => RequestView::GetFileSize { path: path@ },
            Request::GetFileContent { path } => RequestView::GetFileContent { path: path@ },
        }
    }
}

impl View for Response {
    type V = ResponseView;

    open spec fn view(&self) -> ResponseView {
        match *self {
            Response::FileSize(size) => ResponseView::FileSize(size),
            Response::FileContent(data) => ResponseView::FileContent(data@),
        }
    }
}

impl<'a> View for ResponseRef<'a> {
    type V = ResponseView;

    open spec fn view(&self) -> ResponseView {
        match *self {
            ResponseRef::FileSize(size) => ResponseView::FileSize(size),
            ResponseRef::FileContent(data) => ResponseView::FileContent(data@),
        }
    }
}

impl RequestView {
    /// The path that the request names.
    pub open spec fn path(self) -> Seq<u8> {
        match self {
            RequestView::GetFileSize { path } => path,
            RequestView::GetFileContent { path } => path,
        }
    }

    /// The payload length fits the 64-bit length prefix of the wire format.
    pub open spec fn fits(self) -> bool {
        self.path().len() <= u64::MAX
    }
}

impl ResponseView {
    /// The payload length fits the 64-bit length prefix of the wire format.
    pub open spec fn fits(self) -> bool {
        match self {
            ResponseView::FileSize(_) => true,
            ResponseView::FileContent(data) => data.len() <= u64::MAX,
        }
    }
}

impl Request {
    /// The path that the request names.
    pub fn path(&self) -> (p: &[u8])
        ensures
            p@ == self@.path(),
    {
        match self {
            Request::GetFileSize { path } => path.as_slice(),
            Request::GetFileContent { path } => path.as_slice(),
        }
    }
}

/// How many leading bytes of a file's content are shown to the user.
pub const HEAD_LEN: usize = 8;

impl ResponseView {
    /// The leading bytes of a content payload: the first [`HEAD_LEN`], or all
    /// of it where it is shorter. A file size has none.
    pub open spec fn head(self) -> Seq<u8> {
        match self {
            ResponseView::FileSize(_) => Seq::empty(),
            ResponseView::FileContent(data) => if data.len() <= HEAD_LEN {
                data
            } else {
                data.subrange(0, HEAD_LEN as int)
            },
        }
    }
}

impl<'a> ResponseRef<'a> {
    /// The leading bytes of the payload, for display.
    pub fn head(&self) -> (h: &'a [u8])
        ensures
            h@ == self@.head(),
    {
        match *self {
            ResponseRef::FileSize(_) => {
                let none: &'a [u8] = &[];
                assert(none@ =~= Seq::<u8>::empty());
                none
            },
            ResponseRef::FileContent(data) => {
                if data.len() <= HEAD_LEN {
                    data
                } else {
                    vstd::slice::slice_subrange(data, 0, HEAD_LEN)
                }
            },
        }
    }

    /// Copies the borrowed payload into an owning response of the same value.
    pub fn to_owned(&self) -> (owned: Response)
        ensures
            owned@ == self@,
    {
        match *self {
            ResponseRef::FileSize(size) => Response::FileSize(size),
            ResponseRef::FileContent(data) => Response::FileContent(
                vstd::slice::slice_to_vec(data),
            ),
        }
    }
}

impl Response {
    /// Borrows the response as a read-only view of the same value.
    pub fn as_ref<'a>(&'a self) -> (borrowed: ResponseRef<'a>)
        ensures
            borrowed@ == self@,
    {
        match self {
            Response::FileSize(size) => ResponseRef::FileSize(*size),
            Response::FileContent(data) => ResponseRef::FileContent(data.as_slice()),
        }
    }
}

/// An optional byte slice as a value.
pub open spec fn payload_view(payload: Option<&[u8]>) -> Option<Seq<u8>> {
    match payload {
        Some(bytes) => Some(bytes@),
        None => None,
    }
}

/// An optional owned path as a value.
pub open spec fn answer_view(answer: Option<Vec<u8>>) -> Option<Seq<u8>> {
    match answer {
        Some(path) => Some(path@),
        None => None,
    }
}

} // verus!
