use safety_rules_config::config::{NetworkAddress, RemoteService};
use safety_rules_config::resolve::{ResolveError, SocketEndpoint};

fn remote() -> RemoteService {
    RemoteService { server_address: NetworkAddress::new(String::from("safety.example:6185")) }
}

#[test]
fn resolution_returns_the_first_candidate() {
    let a = SocketEndpoint { octets: vec![127, 0, 0, 1], port: 6185 };
    let b = SocketEndpoint { octets: vec![10, 0, 0, 2], port: 7000 };
    let picked = remote().server_address(vec![a.clone(), b]);
    assert_eq!(picked, Ok(a));
}

#[test]
fn resolution_with_no_candidates_is_fatal() {
    let picked = remote().server_address(Vec::new());
    assert_eq!(picked, Err(ResolveError::NoAddresses));
}
