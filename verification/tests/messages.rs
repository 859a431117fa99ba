use subnet_interpreter::checkpoint::{CheckpointError, SignatureError};
use subnet_interpreter::interpreter::FatalError;
use subnet_interpreter::keys::KeyError;
use subnet_interpreter::provider::ProviderError;

#[test]
fn fatal_errors_say_what_failed() {
    assert_eq!(
        FatalError::UpgradeFailed("bad state".to_string()).message(),
        "upgrade failed: bad state"
    );
    assert_eq!(FatalError::ExecutionFailed("no engine".to_string()).message(), "no engine");
    assert_eq!(
        FatalError::CronFailed("out of gas".to_string()).message(),
        "failed to apply block cron message: out of gas"
    );
    assert_eq!(
        FatalError::ChainMetadataFailed("no actor".to_string()).message(),
        "failed to apply chainmetadata message: no actor"
    );
    assert_eq!(FatalError::Encoding("too long".to_string()).message(), "too long");
    assert_eq!(
        FatalError::CheckpointFailed(CheckpointError::MissingBlockHash).message(),
        "failed to create checkpoint: block hash not set"
    );
    assert_eq!(
        FatalError::CheckpointFailed(CheckpointError::PowerTableUnreadable).message(),
        "failed to create checkpoint: failed to get the current power table"
    );
    assert_eq!(FatalError::OutOfOrder.message(), "the call does not fit the phase of the block");
}

#[test]
fn checkpoint_errors_say_what_is_missing() {
    assert_eq!(CheckpointError::MissingBlockHash.message(), "block hash not set");
    assert_eq!(
        CheckpointError::PowerTableUnreadable.message(),
        "failed to get the current power table"
    );
    assert_eq!(SignatureError::UnknownCheckpoint.message(), "no checkpoint at this height");
    assert_eq!(
        SignatureError::WindowClosed.message(),
        "the commit window of the checkpoint has closed"
    );
    assert_eq!(
        SignatureError::AlreadySigned.message(),
        "the validator has signed the checkpoint already"
    );
}

#[test]
fn provider_errors_say_what_was_wrong() {
    assert_eq!(ProviderError::SubnetNotFound.message(), "target parent subnet not found");
    assert_eq!(ProviderError::MissingAuthToken.message(), "Internal server error");
    assert_eq!(ProviderError::NoDefaultAccount.message(), "no default evm account configured");
    assert_eq!(ProviderError::WalletFailed("locked".to_string()).message(), "locked");
}

#[test]
fn key_errors_say_what_was_wrong() {
    assert_eq!(KeyError::LedgerNotSupported.message(), "ledger key type not supported");
    assert_eq!(KeyError::UnknownKeyType.message(), "unknown key type");
    assert_eq!(KeyError::InvalidBase64.message(), "private key is not base64");
    assert_eq!(KeyError::OddHexLength.message(), "Odd number of digits");
    assert_eq!(
        KeyError::InvalidHexCharacter { index: 3 }.message(),
        "Invalid character in private key"
    );
}
