use pcloud::json::JsonValue;
use pcloud::services::all_service_names;
use pcloud::services::container::{listing_error_body, ContainerService};
use pcloud::services::virtual_network::{virtual_network, VirtualNetworkService};

#[test]
fn test_virtual_network_service() {
    // GET /api/virtual_network is mounted and answers {"service": "virtual_network"}.
    assert!(all_service_names().contains(&VirtualNetworkService.name().to_string()));
    match virtual_network() {
        JsonValue::Object(members) => {
            assert_eq!(members.len(), 1);
            assert_eq!(members[0].0, "service");
            match &members[0].1 {
                JsonValue::String(name) => assert_eq!(name, "virtual_network"),
                other => panic!("unexpected service value {:?}", other),
            }
        }
        other => panic!("unexpected body {:?}", other),
    }
}

#[test]
fn both_services_are_mounted() {
    assert_eq!(ContainerService.name(), "container");
    assert_eq!(
        all_service_names(),
        vec!["container".to_string(), "virtual_network".to_string()]
    );
    assert_eq!(
        listing_error_body(),
        "{\"error\":\"Failed to retrieve container information.\"}"
    );
}
