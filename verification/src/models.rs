//! Plain data records exchanged between the MiniERP client and server: users, roles,
//! settings, documents and report definitions. Records holding amounts or quantities
//! live beside the serialisation code, since their fields are floating point.

use vstd::prelude::*;
use std::collections::HashMap;

verus! {

/// Standard API response with a data payload.
#[derive(Clone, Debug)]
pub struct ApiResponse<T> {
    pub success: bool,
    pub data: Option<T>,
    pub error: Option<String>,
}

impl<T> ApiResponse<T> {
    /// A successful response carrying `data`.
    pub fn ok(data: T) -> (r: Self)
        ensures
            r.success,
            r.data == Some(data),
            r.error is None,
    {
        ApiResponse { success: true, data: Some(data), error: None }
    }

    /// A failed response carrying an error message.
    pub fn err(message: String) -> (r: Self)
        ensures
            !r.success,
            r.data is None,
            r.error == Some(message),
    {
        ApiResponse { success: false, data: None, error: Some(message) }
    }
}

/// Paginated list response.
#[derive(Clone, Debug)]
pub struct PaginatedResponse<T> {
    pub items: Vec<T>,
    pub total: usize,
    pub page: usize,
    pub page_size: usize,
}

/// Login request payload.
#[derive(Clone, Debug)]
pub struct LoginRequest {
    pub username: String,
    pub password: String,
}

/// Login response from the server.
#[derive(Clone, Debug)]
pub struct LoginResponse {
    pub user: UserProfile,
    pub token: String,
}

/// Logout request (no body needed, token is in cookie/header).
#[derive(Clone, Debug)]
pub struct LogoutResponse {
    pub message: String,
}

/// Authenticated user profile returned by `/api/auth/me`.
#[derive(Clone, Debug, PartialEq)]
pub struct UserProfile {
    pub id: i64,
    pub username: String,
    pub full_name: String,
    pub email: String,
    pub role: String,
    pub role_id: Option<i64>,
    pub is_active: bool,
    pub created_at: Option<String>,
    pub last_login: Option<String>,
}

/// JWT claims payload.
#[derive(Clone, Debug)]
pub struct JwtClaims {
    /// User ID
    pub sub: i64,
    /// Username
    pub username: String,
    /// User role name
    pub role: String,
    /// Expiration timestamp (epoch seconds)
    pub exp: usize,
    /// Issued at timestamp
    pub iat: usize,
    /// Issuer
    pub iss: String,
    /// Audience
    pub aud: String,
}

/// A permission entry from the database.
#[derive(Clone, Debug)]
pub struct Permission {
    pub id: i64,
    pub permission_name: String,
    pub module: String,
    pub action: String,
    pub description: String,
}

/// A role with its permissions.
#[derive(Clone, Debug)]
pub struct Role {
    pub id: i64,
    pub role_name: String,
    pub description: String,
    pub is_system_role: bool,
    pub is_active: bool,
    pub user_count: i64,
    pub permissions: Vec<Permission>,
}

/// User record from the database (server-side, not sent to client).
#[derive(Clone, Debug)]
pub struct User {
    pub id: i64,
    pub username: String,
    pub email: String,
    pub password_hash: String,
    pub full_name: String,
    pub role: String,
    pub role_id: Option<i64>,
    pub is_active: bool,
    pub created_at: Option<String>,
    pub last_login: Option<String>,
}

/// User create/update payload.
#[derive(Clone, Debug)]
pub struct UserForm {
    pub username: String,
    pub email: String,
    pub full_name: String,
    pub password: Option<String>,
    pub role_id: i64,
    pub is_active: bool,
}

/// Password change request.
#[derive(Clone, Debug)]
pub struct ChangePasswordRequest {
    pub current_password: String,
    pub new_password: String,
}

/// Key-value setting from the `settings` table.
#[derive(Clone, Debug)]
pub struct Setting {
    pub key: String,
    pub value: String,
    pub description: String,
}

/// Warehouse create/update payload.
#[derive(Clone, Debug)]
pub struct WarehouseForm {
    pub warehouse_code: String,
    pub warehouse_name: String,
    pub location: Option<String>,
}

/// Physical count record.
#[derive(Clone, Debug)]
pub struct PhysicalCount {
    pub id: i64,
    pub count_no: String,
    pub count_date: String,
    pub warehouse_id: i64,
    pub warehouse_name: Option<String>,
    pub status: String,
    pub notes: String,
    pub created_by: Option<i64>,
    pub created_at: String,
    pub completed_at: Option<String>,
}

/// Physical count create payload.
#[derive(Clone, Debug)]
pub struct PhysicalCountForm {
    pub warehouse_id: i64,
    pub notes: Option<String>,
}

#[derive(Clone, Debug)]
pub struct Supplier {
    pub id: i64,
    pub supplier_code: String,
    pub supplier_name: String,
    pub email: String,
    pub phone: String,
    pub address: String,
    pub is_active: bool,
    pub created_at: String,
}

#[derive(Clone, Debug)]
pub struct SupplierForm {
    pub supplier_code: String,
    pub supplier_name: String,
    pub email: Option<String>,
    pub phone: Option<String>,
    pub address: Option<String>,
}

#[derive(Clone, Debug)]
pub struct PurchaseOrderStatusUpdate {
    pub status: String,
}

#[derive(Clone, Debug)]
pub struct GoodsReceipt {
    pub id: i64,
    pub receipt_no: String,
    pub po_id: i64,
    pub receipt_date: String,
    pub warehouse_id: Option<i64>,
    pub notes: Option<String>,
    pub created_by: Option<i64>,
    pub created_at: String,
}

#[derive(Clone, Debug)]
pub struct ExpenseCategory {
    pub id: i64,
    pub category_name: String,
    pub is_active: bool,
}

#[derive(Clone, Debug)]
pub struct ExpenseCategoryForm {
    pub category_name: String,
}

#[derive(Clone, Debug)]
pub struct ChartOfAccount {
    pub id: i64,
    pub code: String,
    pub name: String,
    pub account_type: String,
    pub normal_balance: String,
    pub parent_id: Option<i64>,
    pub is_active: bool,
}

#[derive(Clone, Debug)]
pub struct JournalEntry {
    pub id: i64,
    pub reference_type: Option<String>,
    pub reference_id: Option<i64>,
    pub entry_date: String,
    pub created_by: Option<i64>,
    pub created_at: String,
}

#[derive(Clone, Debug)]
pub struct ActivityLog {
    pub id: i64,
    pub user_id: Option<i64>,
    pub username: Option<String>,
    pub action: String,
    pub entity_type: String,
    pub entity_id: Option<i64>,
    pub metadata: Option<String>,
    pub ip_address: Option<String>,
    pub created_at: String,
}

#[derive(Clone, Debug)]
pub struct DashboardLayout {
    pub id: i64,
    pub user_id: i64,
    pub layout_name: String,
    pub blocks: String,
    pub is_active: bool,
    pub created_at: String,
}

#[derive(Clone, Debug)]
pub struct DashboardLayoutForm {
    pub layout_name: String,
    pub blocks: String,
}

#[derive(Clone, Debug)]
pub struct PaymentTerm {
    pub id: i64,
    pub name: String,
    pub days: i64,
    pub is_default: bool,
    pub is_active: bool,
}

#[derive(Clone, Debug)]
pub struct CustomReport {
    pub id: i64,
    pub user_id: i64,
    pub name: String,
    pub config: String,
    pub is_active: bool,
    pub last_run_at: Option<String>,
    pub created_at: String,
}

#[derive(Clone, Debug)]
pub struct CustomReportForm {
    pub name: String,
    pub config: String,
}

#[derive(Clone, Debug)]
pub struct ForecastRun {
    pub id: i64,
    pub run_id: String,
    pub run_type: String,
    pub status: String,
    pub items_processed: i64,
    pub started_at: String,
    pub completed_at: Option<String>,
}

#[derive(Clone, Debug)]
pub struct Integration {
    pub service: String,
    pub is_configured: bool,
    pub settings: HashMap<String, String>,
}

#[derive(Clone, Debug)]
pub struct RoleForm {
    pub role_name: String,
    pub description: Option<String>,
}

#[derive(Clone, Debug)]
pub struct RolePermissionUpdate {
    pub permission_ids: Vec<i64>,
}

#[derive(Clone, Debug)]
pub struct SettingsUpdate {
    pub settings: Vec<SettingUpdate>,
}

#[derive(Clone, Debug)]
pub struct SettingUpdate {
    pub key: String,
    pub value: String,
}

} // verus!
