//! Secrets (Steam API key, backpack.tf token, Discord webhook URL) live in
//! the OS credential store only, under one service name. Talking to the
//! store happens in the application layer; this module decides what each
//! answer of the store means for the caller.
pub mod keys;

use vstd::prelude::*;
use crate::error::AppError;

verus! {

/// The service name every secret is stored under.
pub const SERVICE: &'static str = "tf2-terminal";

/// The credential stores secrets can live in.
#[derive(Debug, Clone, Copy, PartialEq, Eq, Structural)]
pub enum StoreKind {
    /// The macOS Keychain.
    AppleKeychain,
    /// The Windows Credential Manager.
    WindowsCredentialManager,
    /// A Secret Service provider reached over D-Bus.
    SecretService,
    /// The Linux kernel keyring: needs no daemon, but its secrets last
    /// only until reboot.
    KernelKeyring,
}

/// The operating systems, as far as the choice of store goes.
#[derive(Debug, Clone, Copy, PartialEq, Eq, Structural)]
pub enum Platform {
    MacOs,
    Windows,
    Linux,
    /// A Unix other than macOS, iOS, Android or Linux.
    OtherUnix,
    Other,
}

/// The stores tried on a platform, in order: the platform's own store,
/// and on Linux the kernel keyring when no Secret Service is reachable.
pub open spec fn spec_store_candidates(platform: Platform) -> Seq<StoreKind> {
    match platform {
        Platform::MacOs => seq![StoreKind::AppleKeychain],
        Platform::Windows => seq![StoreKind::WindowsCredentialManager],
        Platform::Linux => seq![StoreKind::SecretService, StoreKind::KernelKeyring],
        Platform::OtherUnix => seq![StoreKind::SecretService],
        Platform::Other => seq![],
    }
}

/// The stores to try on `platform`, in order; the first one that opens
/// is used for every later secret operation.
pub fn store_candidates(platform: Platform) -> (r: Vec<StoreKind>)
    ensures
        r@ == spec_store_candidates(platform),
{
    let mut r: Vec<StoreKind> = Vec::new();
    match platform {
        Platform::MacOs => r.push(StoreKind::AppleKeychain),
        Platform::Windows => r.push(StoreKind::WindowsCredentialManager),
        Platform::Linux => {
            r.push(StoreKind::SecretService);
            r.push(StoreKind::KernelKeyring);
        },
        Platform::OtherUnix => r.push(StoreKind::SecretService),
        Platform::Other => {},
    }
    assert(r@ =~= spec_store_candidates(platform));
    r
}

impl StoreKind {
    /// Whether secrets in this store are lost on reboot (a degraded mode
    /// worth warning about).
    pub fn cleared_on_reboot(&self) -> (r: bool)
        ensures
            r == (*self == StoreKind::KernelKeyring),
    {
        match self {
            StoreKind::KernelKeyring => true,
            _ => false,
        }
    }
}

/// What the credential store answered to one request.
#[derive(Debug, Clone, PartialEq, Eq)]
pub enum StoreAnswer<T> {
    /// The request succeeded with this value.
    Done(T),
    /// No secret is stored under the key.
    NoEntry,
    /// The store failed, with its message.
    Failed(String),
}

/// Access to the OS credential store.
pub struct Keychain;

impl Keychain {
    /// Storing a secret succeeds or fails with the store's message.
    pub fn set_result(answer: StoreAnswer<()>) -> (r: Result<(), AppError>)
        ensures
            match answer {
                StoreAnswer::Done(()) => r is Ok,
                StoreAnswer::NoEntry => r matches Err(AppError::Keychain(m)) && m@
                    == "No matching credential found"@,
                StoreAnswer::Failed(m) => r == Err::<(), AppError>(AppError::Keychain(m)),
            },
    {
        match answer {
            StoreAnswer::Done(()) => Ok(()),
            StoreAnswer::NoEntry => Err(
                AppError::Keychain(String::from_str("No matching credential found")),
            ),
            StoreAnswer::Failed(m) => Err(AppError::Keychain(m)),
        }
    }

    /// Reading a secret: the secret when one is stored, `None` when none
    /// is, the store's message when it failed.
    pub fn get_result(answer: StoreAnswer<String>) -> (r: Result<Option<String>, AppError>)
        ensures
            match answer {
                StoreAnswer::Done(s) => r == Ok::<Option<String>, AppError>(Some(s)),
                StoreAnswer::NoEntry => r == Ok::<Option<String>, AppError>(None),
                StoreAnswer::Failed(m) => r == Err::<Option<String>, AppError>(AppError::Keychain(m)),
            },
    {
        match answer {
            StoreAnswer::Done(s) => Ok(Some(s)),
            StoreAnswer::NoEntry => Ok(None),
            StoreAnswer::Failed(m) => Err(AppError::Keychain(m)),
        }
    }

    /// Deleting a secret is a no-op when none is stored; only a failure of
    /// the store is an error.
    pub fn delete_result(answer: StoreAnswer<()>) -> (r: Result<(), AppError>)
        ensures
            match answer {
                StoreAnswer::Failed(m) => r == Err::<(), AppError>(AppError::Keychain(m)),
                _ => r is Ok,
            },
    {
        match answer {
            StoreAnswer::Done(()) | StoreAnswer::NoEntry => Ok(()),
            StoreAnswer::Failed(m) => Err(AppError::Keychain(m)),
        }
    }
}

} // verus!
