pub use crate::service::export_import::export_service_into_handle;
pub use crate::service::export_import::import_service_from_handle;
pub use crate::service::export_import::HandleToExchange;
pub use crate::service::export_import::ImportProxy;
pub use crate::service::export_import::IntoSkeleton;
pub use crate::service::export_import::Skeleton;
