//! Successful answers: a status and the data of the body
//! `{"status":"success","data":..,"error":null}`.
use vstd::prelude::*;

verus! {

pub const STATUS_OK: u16 = 200u16;

pub const STATUS_CREATED: u16 = 201u16;

#[derive(Debug)]
pub struct ApiResponse<T> {
    status_code: u16,
    data: T,
}

impl<T> ApiResponse<T> {
    pub closed spec fn spec_status(&self) -> u16 {
        self.status_code
    }

    pub closed spec fn spec_data(&self) -> T {
        self.data
    }

    /// A `200 OK` answer.
    pub fn ok(data: T) -> (r: Self)
        ensures
            r.spec_status() == STATUS_OK,
            r.spec_data() == data,
    {
        ApiResponse { status_code: STATUS_OK, data }
    }

    /// A `201 Created` answer.
    pub fn created(data: T) -> (r: Self)
        ensures
            r.spec_status() == STATUS_CREATED,
            r.spec_data() == data,
    {
        ApiResponse { status_code: STATUS_CREATED, data }
    }

    pub fn status_code(&self) -> (r: u16)
        ensures
            r == self.spec_status(),
    {
        self.status_code
    }

    /// Status and data, to build the HTTP answer from.
    pub fn into_parts(self) -> (r: (u16, T))
        ensures
            r.0 == self.spec_status(),
            r.1 == self.spec_data(),
    {
        (self.status_code, self.data)
    }
}

} // verus!
