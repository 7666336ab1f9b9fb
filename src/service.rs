use vstd::prelude::*;

use crate::error::AppError;
use crate::response::ApiResponse;

verus! {

/// The payload of a health report.
pub struct HealthResponse {
    pub status: String,
    pub version: String,
}

/// The health report: the service is up, at the given version.
pub fn health_check(version: &str) -> (r: ApiResponse<HealthResponse>)
    ensures
        r.success,
        r.message@ == "Server is running well"@,
        r.data matches Some(h) && h.status@ == "healthy"@ && h.version@ == version@,
{
    let health_data = HealthResponse { status: "healthy".to_string(), version: version.to_string() };
    ApiResponse::success("Server is running well", health_data)
}

/// The user-sync endpoint: acknowledged, with no persisted effect.
pub fn sync_user_handler() -> (r: ApiResponse<()>)
    ensures
        r.success,
        r.message@ == "Test endpoint"@,
        r.data is None,
{
    ApiResponse::success_without_data("Test endpoint")
}

/// A route that always fails with `NotFound`, to show the error envelope.
pub fn simulate_error() -> (r: Result<ApiResponse<()>, AppError>)
    ensures
        r matches Err(AppError::NotFound(m)) && m@ == "Clan atau User tidak ditemukan di database"@,
{
    Err(AppError::NotFound("Clan atau User tidak ditemukan di database".to_string()))
}

} // verus!
