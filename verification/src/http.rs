//! The uniform envelope in which the operator API answers, and paging.

use crate::text::concat2;
use vstd::prelude::*;

verus! {

/// The envelope of every answer: status 0 with data, or status 1 with a
/// message.
#[derive(Debug)]
pub struct ApiResponse<T> {
    pub status: u32,
    pub err_msg: Option<String>,
    pub data: Option<T>,
}

/// An error that can be shown at the API boundary.
pub trait ErrorTrait {
    /// The message, as text.
    spec fn text(&self) -> Seq<char>;

    /// The message.
    fn message(&self) -> (s: String)
        ensures
            s@ == self.text(),
    ;
}

/// A failure as the API reports it: a message and nothing else.
#[derive(Debug)]
pub struct ApiError {
    pub msg: String,
}

/// What a handler returns.
pub type ApiResult<T> = Result<ApiResponse<T>, ApiError>;

impl<T> ApiResponse<T> {
    /// The answer that carries `data`.
    pub fn ok(data: T) -> (res: ApiResult<T>)
        ensures
            res is Ok,
            res->Ok_0.status == 0,
            res->Ok_0.err_msg is None,
            res->Ok_0.data == Some(data),
    {
        Ok(ApiResponse { status: 0, err_msg: None, data: Some(data) })
    }
}

impl ApiResponse<()> {
    /// The answer that carries nothing.
    pub fn empty_ok() -> (res: ApiResponse<()>)
        ensures
            res.status == 0,
            res.err_msg is None,
            res.data is None,
    {
        ApiResponse { status: 0, err_msg: None, data: None }
    }

    /// The failure with the message `msg`.
    pub fn simple_err(msg: String) -> (res: ApiResult<()>)
        ensures
            res is Err,
            res->Err_0.msg@ == msg@,
    {
        Err(ApiError { msg })
    }
}

impl ApiError {
    /// The failure that reports `error`.
    pub fn from<E: ErrorTrait>(error: &E) -> (res: ApiError)
        ensures
            res.msg@ == error.text(),
    {
        ApiError { msg: error.message() }
    }

    /// The HTTP status of every failure: 400.
    pub fn status_code(&self) -> (code: u16)
        ensures
            code == 400,
    {
        400
    }

    /// The failure as it reads: `error: ` and the message.
    pub fn to_text(&self) -> (s: String)
        ensures
            s@ == "error: "@ + self.msg@,
    {
        concat2("error: ", self.msg.as_str())
    }

    /// The envelope of this failure: status 1, the text of the failure,
    /// no data.
    pub fn error_response(&self) -> (res: ApiResponse<()>)
        ensures
            res.status == 1,
            res.err_msg is Some,
            res.err_msg->Some_0@ == "error: "@ + self.msg@,
            res.data is None,
    {
        ApiResponse { status: 1, err_msg: Some(self.to_text()), data: None }
    }
}

/// Which page of a listing is asked for. Pages are counted from 1; page 0
/// is read as page 1.
#[derive(Debug, Clone, Copy, PartialEq, Eq, Structural)]
pub struct Pagination {
    pub page: u16,
    pub page_size: u16,
}

/// The number of rows before the page asked for.
pub open spec fn offset_of(page: u16, page_size: u16) -> nat {
    if page == 0 {
        0
    } else {
        ((page - 1) * page_size) as nat
    }
}

impl Default for Pagination {
    /// The first page, of ten rows.
    fn default() -> (p: Pagination)
        ensures
            p.page == 1,
            p.page_size == 10,
    {
        Pagination { page: 1, page_size: 10 }
    }
}

impl Pagination {
    /// Page `page` of a listing in pages of `page_size` rows.
    pub fn new(page: u16, page_size: u16) -> (p: Pagination)
        ensures
            p.page == page,
            p.page_size == page_size,
    {
        Pagination { page, page_size }
    }

    /// The number of rows to skip.
    pub fn offset(&self) -> (n: usize)
        ensures
            n == offset_of(self.page, self.page_size),
    {
        let before: u16 = if self.page == 0 {
            0
        } else {
            self.page - 1
        };
        assert(before * self.page_size <= 0xffff * 0xffff) by (nonlinear_arith)
            requires
                before <= 0xffff,
                self.page_size <= 0xffff,
        ;
        (before as usize) * (self.page_size as usize)
    }

    /// The number of rows to return at most.
    pub fn limit(&self) -> (n: usize)
        ensures
            n == self.page_size,
    {
        self.page_size as usize
    }
}

} // verus!
