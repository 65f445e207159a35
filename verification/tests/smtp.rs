use std::borrow::Cow;

use mail_services::scripts::llm_prompt::{register, try_register, FUNCTION_ARGS, FUNCTION_NAME, ID_EXTERNAL};
use mail_services::smtp::inbound::{
    AuthResult, DkimResult, DmarcResult, FilterResponse, IprevResult, Policy, SpfResult,
};
use sieve::{Compiler, FunctionMap};

#[test]
fn filter_responses() {
    assert_eq!(FilterResponse::accept().message, "250 2.0.0 Message queued for delivery.\r\n");
    assert!(!FilterResponse::accept().disconnect);
    assert_eq!(FilterResponse::reject().message, "503 5.5.3 Message rejected.\r\n");
    assert!(!FilterResponse::reject().disconnect);
    assert_eq!(
        FilterResponse::temp_fail().message,
        "451 4.3.5 Unable to accept message at this time.\r\n"
    );
    assert!(!FilterResponse::temp_fail().disconnect);
    assert_eq!(FilterResponse::shutdown().message, "421 4.3.0 Server shutting down.\r\n");
    assert!(FilterResponse::shutdown().disconnect);
    assert_eq!(FilterResponse::server_failure(), FilterResponse::temp_fail());
    assert_eq!(FilterResponse::default().message, "");
    assert!(!FilterResponse::default().disconnect);
}

#[test]
fn disconnect_keeps_the_message() {
    let response = FilterResponse::reject().disconnect();
    assert_eq!(response.message, "503 5.5.3 Message rejected.\r\n");
    assert!(response.disconnect);
}

#[test]
fn into_bytes_gives_the_bytes_of_the_message() {
    assert_eq!(
        FilterResponse::reject().into_bytes().as_ref(),
        b"503 5.5.3 Message rejected.\r\n"
    );
    let owned = FilterResponse { message: Cow::Owned("550 Größe\r\n".to_string()), disconnect: false };
    assert_eq!(owned.into_bytes().as_ref(), "550 Größe\r\n".as_bytes());
}

#[test]
fn authentication_results_have_names() {
    assert_eq!(SpfResult::Pass.as_str(), "pass");
    assert_eq!(SpfResult::Fail.as_str(), "fail");
    assert_eq!(SpfResult::SoftFail.as_str(), "softfail");
    assert_eq!(SpfResult::Neutral.as_str(), "neutral");
    assert_eq!(SpfResult::Absent.as_str(), "none");
    assert_eq!(SpfResult::TempError.as_str(), "temperror");
    assert_eq!(SpfResult::PermError.as_str(), "permerror");
    assert_eq!(IprevResult::Pass.as_str(), "pass");
    assert_eq!(IprevResult::Fail.as_str(), "fail");
    assert_eq!(IprevResult::TempError.as_str(), "temperror");
    assert_eq!(IprevResult::PermError.as_str(), "permerror");
    assert_eq!(IprevResult::Absent.as_str(), "none");
    assert_eq!(DkimResult::Pass.as_str(), "pass");
    assert_eq!(DkimResult::Absent.as_str(), "none");
    assert_eq!(DkimResult::Neutral.as_str(), "neutral");
    assert_eq!(DkimResult::Fail.as_str(), "fail");
    assert_eq!(DkimResult::PermError.as_str(), "permerror");
    assert_eq!(DkimResult::TempError.as_str(), "temperror");
    assert_eq!(DmarcResult::Pass.as_str(), "pass");
    assert_eq!(DmarcResult::Fail.as_str(), "fail");
    assert_eq!(DmarcResult::TempError.as_str(), "temperror");
    assert_eq!(DmarcResult::PermError.as_str(), "permerror");
    assert_eq!(DmarcResult::Absent.as_str(), "none");
    assert_eq!(Policy::Reject.as_str(), "reject");
    assert_eq!(Policy::Quarantine.as_str(), "quarantine");
    assert_eq!(Policy::NoAction.as_str(), "none");
    assert_eq!(Policy::Unspecified.as_str(), "none");
}

const SCRIPT: &[u8] =
    b"require \"vnd.stalwart.expressions\";\nif eval \"llm_prompt('model', 'prompt', 0.5)\" { keep; }\n";

#[test]
fn register_makes_the_function_known_to_scripts() {
    assert_eq!(FUNCTION_NAME, "llm_prompt");
    assert_eq!(FUNCTION_ARGS, 3);
    assert_eq!(ID_EXTERNAL, u32::MAX - 2);

    let mut unknown = FunctionMap::new();
    assert!(Compiler::new().register_functions(&mut unknown).compile(SCRIPT).is_err());

    let mut known = FunctionMap::new();
    register(4, &mut known);
    assert!(Compiler::new().register_functions(&mut known).compile(SCRIPT).is_ok());

    let two_arguments: &[u8] =
        b"require \"vnd.stalwart.expressions\";\nif eval \"llm_prompt('model', 'prompt')\" { keep; }\n";
    let mut known = FunctionMap::new();
    register(4, &mut known);
    assert!(Compiler::new().register_functions(&mut known).compile(two_arguments).is_err());
}

#[test]
fn try_register_refuses_ids_that_the_map_cannot_hold() {
    let mut map = FunctionMap::new();
    assert!(!try_register(u32::MAX, &mut map));
    assert!(Compiler::new().register_functions(&mut map).compile(SCRIPT).is_err());
    let mut map = FunctionMap::new();
    assert!(try_register(ID_EXTERNAL, &mut map));
    assert!(Compiler::new().register_functions(&mut map).compile(SCRIPT).is_ok());
}
