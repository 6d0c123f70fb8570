use sylph_verifier::errors::{Error, IntoResultCmdExt, ResultCmdExt};

#[test]
fn cmd_ok_passes_success_through() {
    let r: Result<u32, Error> = Ok(5);
    assert!(r.cmd_ok().is_ok());
}

#[test]
fn cmd_ok_suppresses_validation_errors() {
    let r: Result<u32, Error> = Err(Error::Validation {
        message: "channel too large".to_string(),
    });
    assert!(r.cmd_ok().is_ok());
}

#[test]
fn cmd_ok_propagates_transient_errors() {
    let r: Result<u32, Error> = Err(Error::Transient {
        message: "delete failed".to_string(),
    });
    match r.cmd_ok() {
        Err(Error::Transient { message }) => assert_eq!(message, "delete failed"),
        other => panic!("expected the transient error back, got {:?}", other),
    }
}

#[test]
fn cmd_ok_propagates_load_errors() {
    let r: Result<u32, Error> = Err(Error::Load {
        message: "store unreachable".to_string(),
    });
    match r.cmd_ok() {
        Err(Error::Load { message }) => assert_eq!(message, "store unreachable"),
        other => panic!("expected the load error back, got {:?}", other),
    }
}

#[test]
fn to_cmd_err_keeps_success() {
    let r: Result<u32, Error> = Ok(7);
    assert_eq!(r.to_cmd_err("context".to_string()).unwrap(), 7);
}

#[test]
fn to_cmd_err_rewraps_failures_as_validation() {
    let r: Result<u32, Error> = Err(Error::Transient {
        message: "boom".to_string(),
    });
    match r.to_cmd_err("could not finish the command".to_string()) {
        Err(Error::Validation { message }) => {
            assert_eq!(message, "could not finish the command");
        }
        other => panic!("expected a validation error, got {:?}", other),
    }
}

#[test]
fn to_sync_error_carries_the_message() {
    let e = Error::Load {
        message: "store unreachable".to_string(),
    };
    assert_eq!(e.message(), "store unreachable");
    let sync = e.to_sync_error();
    assert_eq!(sync.0, "store unreachable");
}
