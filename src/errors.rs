use vstd::prelude::*;

verus! {

/// Every way a vault operation can be refused.
#[derive(Debug, Clone, Copy, PartialEq, Eq, Structural)]
pub enum VaultError {
    ZeroDepositAmount,
    ZeroInvestAmount,
    InsufficientVaultBalance,
    MathOverflow,
    DivisionByZero,
    InvalidMint,
    InvalidOwner,
    Unauthorized,
    InvalidTargetProgram,
    InvestAmountTooLarge,
    ProtocolNotApproved,
    ProtocolAlreadyExists,
    ProtocolNotFound,
    RegistryFull,
    NameTooLong,
}

impl VaultError {
    /// A sentence describing the failure, for logs and client tooling.
    pub fn message(&self) -> &'static str {
        match self {
            VaultError::ZeroDepositAmount => "Deposit amount must be greater than zero",
            VaultError::ZeroInvestAmount => "Invest amount must be greater than zero",
            VaultError::InsufficientVaultBalance => "Insufficient vault balance for investment",
            VaultError::MathOverflow => "Math overflow occurred during calculation",
            VaultError::DivisionByZero => "Cannot divide by zero - vault has no shares",
            VaultError::InvalidMint => "Invalid token mint - does not match vault asset",
            VaultError::InvalidOwner => "Invalid token account owner",
            VaultError::Unauthorized => "Unauthorized - only vault authority can perform this action",
            VaultError::InvalidTargetProgram => "Invalid target program for investment",
            VaultError::InvestAmountTooLarge => "Invest amount exceeds vault total assets",
            VaultError::ProtocolNotApproved => "Protocol not approved - target not in whitelist or disabled",
            VaultError::ProtocolAlreadyExists => "Protocol already exists in registry",
            VaultError::ProtocolNotFound => "Protocol not found in registry",
            VaultError::RegistryFull => "Protocol registry is full - maximum protocols reached",
            VaultError::NameTooLong => "Protocol name too long - maximum 32 characters",
        }
    }
}

} // verus!
