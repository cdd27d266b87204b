// Delegated spending authorizations and a scheduled recurring-purchase vault,
// with the coordination that lets a delegate run the vault's cycles.
pub mod coordinator;
pub mod dca_vault;
pub mod identity;
pub mod laws;
pub mod session_keys;
