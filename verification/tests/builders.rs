//! Event builder tests.

use outlit::email;
use outlit::fingerprint;
use outlit::user_id;
use outlit::BillingBuilder;
use outlit::Identity;
use outlit::IdentifyBuilder;
use outlit::StageBuilder;
use outlit::TrackBuilder;
use outlit::server_url;
use outlit::types::BillingStatus;
use outlit::types::JourneyStage;
use outlit::types::PropValue;
use outlit::types::TrackerEvent;

#[test]
fn test_track_builder_with_email() {
    let event = TrackBuilder::new(
        "signup".to_string(),
        Identity::Email(email("user@example.com".to_string())),
    )
        .property("plan".to_string(), PropValue::Str("pro".to_string()))
        .build();

    if let TrackerEvent::Custom(data) = event {
        assert_eq!(data.event_name, "signup");
        assert!(data.url.contains("user@example.com"));
        let props = data.properties.unwrap();
        assert_eq!(props.get("plan").unwrap(), &PropValue::Str("pro".to_string()));
        assert_eq!(
            props.get("__email").unwrap(),
            &PropValue::Str("user@example.com".to_string()),
        );
    } else {
        panic!("Expected custom event");
    }
}

#[test]
fn test_track_builder_with_user_id() {
    let event = TrackBuilder::new(
        "signup".to_string(),
        Identity::UserId(user_id("usr_123".to_string())),
    )
        .email("user@example.com".to_string()) // add email too
        .build();

    if let TrackerEvent::Custom(data) = event {
        let props = data.properties.unwrap();
        assert_eq!(props.get("__userId").unwrap(), &PropValue::Str("usr_123".to_string()));
        assert_eq!(
            props.get("__email").unwrap(),
            &PropValue::Str("user@example.com".to_string()),
        );
    } else {
        panic!("Expected custom event");
    }
}

#[test]
fn test_track_builder_with_fingerprint_identity() {
    let event = TrackBuilder::new(
        "page_view".to_string(),
        Identity::Fingerprint(fingerprint("device_abc123".to_string())),
    )
        .property("page".to_string(), PropValue::Str("/pricing".to_string()))
        .build();

    if let TrackerEvent::Custom(data) = event {
        assert_eq!(data.event_name, "page_view");
        assert!(data.url.contains("device_abc123"));
        let props = data.properties.unwrap();
        assert_eq!(props.get("page").unwrap(), &PropValue::Str("/pricing".to_string()));
        assert_eq!(
            props.get("__fingerprint").unwrap(),
            &PropValue::Str("device_abc123".to_string()),
        );
        assert_eq!(props.get("__email").unwrap(), &PropValue::Null);
        assert_eq!(props.get("__userId").unwrap(), &PropValue::Null);
    } else {
        panic!("Expected custom event");
    }
}

#[test]
fn test_track_builder_fingerprint_with_email() {
    let event = TrackBuilder::new(
        "signup".to_string(),
        Identity::Email(email("user@example.com".to_string())),
    )
        .fingerprint("device_abc123".to_string())
        .build();

    if let TrackerEvent::Custom(data) = event {
        let props = data.properties.unwrap();
        assert_eq!(
            props.get("__email").unwrap(),
            &PropValue::Str("user@example.com".to_string()),
        );
        assert_eq!(
            props.get("__fingerprint").unwrap(),
            &PropValue::Str("device_abc123".to_string()),
        );
    } else {
        panic!("Expected custom event");
    }
}

#[test]
fn test_track_builder_fingerprint_with_user_id() {
    let event = TrackBuilder::new(
        "feature_used".to_string(),
        Identity::Fingerprint(fingerprint("device_abc123".to_string())),
    )
        .user_id("usr_123".to_string())
        .build();

    if let TrackerEvent::Custom(data) = event {
        let props = data.properties.unwrap();
        assert_eq!(
            props.get("__fingerprint").unwrap(),
            &PropValue::Str("device_abc123".to_string()),
        );
        assert_eq!(props.get("__userId").unwrap(), &PropValue::Str("usr_123".to_string()));
    } else {
        panic!("Expected custom event");
    }
}

#[test]
fn test_identify_builder() {
    let event = IdentifyBuilder::new(Identity::Email(email("user@example.com".to_string())))
        .user_id("usr_123".to_string())
        .trait_("name".to_string(), PropValue::Str("John".to_string()))
        .trait_("plan".to_string(), PropValue::Str("pro".to_string()))
        .build();

    if let TrackerEvent::Identify(data) = event {
        assert_eq!(data.email, Some("user@example.com".into()));
        assert_eq!(data.user_id, Some("usr_123".into()));
        let traits = data.traits.unwrap();
        assert_eq!(traits.get("name").unwrap(), &PropValue::Str("John".to_string()));
    } else {
        panic!("Expected identify event");
    }
}

#[test]
fn test_identify_builder_with_fingerprint() {
    let event = IdentifyBuilder::new(Identity::Email(email("user@example.com".to_string())))
        .fingerprint("device_abc123".to_string())
        .user_id("usr_123".to_string())
        .build();

    if let TrackerEvent::Identify(data) = event {
        assert_eq!(data.email, Some("user@example.com".into()));
        assert_eq!(data.fingerprint, Some("device_abc123".into()));
        assert_eq!(data.user_id, Some("usr_123".into()));
    } else {
        panic!("Expected identify event");
    }
}

#[test]
fn test_stage_builder() {
    let event = StageBuilder::new(
        JourneyStage::Activated,
        Identity::Email(email("user@example.com".to_string())),
    )
        .property("source".to_string(), PropValue::Str("onboarding".to_string()))
        .build();

    if let TrackerEvent::Stage(data) = event {
        assert!(matches!(data.stage, JourneyStage::Activated));
    } else {
        panic!("Expected stage event");
    }
}

#[test]
fn test_stage_builder_with_fingerprint_identity() {
    let event = StageBuilder::new(
        JourneyStage::Activated,
        Identity::Fingerprint(fingerprint("device_abc123".to_string())),
    ).build();

    if let TrackerEvent::Stage(data) = event {
        assert!(matches!(data.stage, JourneyStage::Activated));
        let props = data.properties.unwrap();
        assert_eq!(
            props.get("__fingerprint").unwrap(),
            &PropValue::Str("device_abc123".to_string()),
        );
    } else {
        panic!("Expected stage event");
    }
}

#[test]
fn test_billing_builder() {
    let event = BillingBuilder::new(BillingStatus::Paid, "acme.com".to_string())
        .customer_id("cust_123".to_string())
        .stripe_customer_id("cus_xxx".to_string())
        .property("plan".to_string(), PropValue::Str("enterprise".to_string()))
        .build();

    if let TrackerEvent::Billing(data) = event {
        assert!(matches!(data.status, BillingStatus::Paid));
        assert_eq!(data.domain, Some("acme.com".into()));
        assert_eq!(data.customer_id, Some("cust_123".into()));
    } else {
        panic!("Expected billing event");
    }
}

#[test]
fn test_server_url_precedence() {
    assert_eq!(
        server_url(Some("user@example.com"), Some("usr_123"), Some("device_abc123")),
        "server://user@example.com",
    );
    assert_eq!(server_url(None, Some("usr_123"), Some("device_abc123")), "server://usr_123");
    assert_eq!(server_url(None, None, Some("device_abc123")), "server://device_abc123");
    assert_eq!(server_url(None, None, None), "server://unknown");
}

#[test]
fn test_billing_builder_without_properties() {
    let event = BillingBuilder::new(BillingStatus::Churned, "acme.com".to_string()).build();

    if let TrackerEvent::Billing(data) = event {
        assert!(matches!(data.status, BillingStatus::Churned));
        assert!(data.properties.is_none());
        assert!(data.customer_id.is_none());
        assert!(data.stripe_customer_id.is_none());
    } else {
        panic!("Expected billing event");
    }
}

#[test]
fn test_track_builder_custom_timestamp() {
    let event = TrackBuilder::new(
        "signup".to_string(),
        Identity::Email(email("user@example.com".to_string())),
    )
        .timestamp(1706400000000)
        .build();

    if let TrackerEvent::Custom(data) = event {
        assert_eq!(data.timestamp, 1706400000000);
        assert_eq!(data.path, "/");
        assert_eq!(data.url, "server://user@example.com");
    } else {
        panic!("Expected custom event");
    }
}

#[test]
fn test_property_last_binding_wins() {
    let event = TrackBuilder::new(
        "signup".to_string(),
        Identity::Email(email("user@example.com".to_string())),
    )
        .property("plan".to_string(), PropValue::Str("free".to_string()))
        .property("plan".to_string(), PropValue::Str("pro".to_string()))
        .build();

    if let TrackerEvent::Custom(data) = event {
        let props = data.properties.unwrap();
        assert_eq!(props.get("plan").unwrap(), &PropValue::Str("pro".to_string()));
        assert!(props.get("missing").is_none());
    } else {
        panic!("Expected custom event");
    }
}
