use vstd::prelude::*;

verus! {

/// The uniform response envelope: `{success, message, data?}`.
pub struct ApiResponse<T> {
    pub success: bool,
    pub message: String,
    /// Absent payloads are left out of the rendered body, not written as null.
    pub data: Option<T>,
}

impl<T> ApiResponse<T> {
    /// A successful envelope that carries `data`.
    pub fn success(message: &str, data: T) -> (r: Self)
        ensures
            r.success,
            r.message@ == message@,
            r.data == Some(data),
    {
        Self { success: true, message: message.to_string(), data: Some(data) }
    }

    /// A successful envelope without a payload.
    pub fn success_without_data(message: &str) -> (r: Self)
        ensures
            r.success,
            r.message@ == message@,
            r.data is None,
    {
        Self { success: true, message: message.to_string(), data: None }
    }

    /// A failed envelope: `success` is false and there is never a payload.
    pub fn error(message: &str) -> (r: Self)
        ensures
            !r.success,
            r.message@ == message@,
            r.data is None,
    {
        Self { success: false, message: message.to_string(), data: None }
    }
}

} // verus!
