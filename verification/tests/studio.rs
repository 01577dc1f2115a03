use constellation::params::{NodeConfig, ParamValue};
use constellation::studio::{DevAppState, DevEngineEvent, DevError};
use constellation::types::{ConnectionType, EffectType, InputType, NodeType};

fn pattern() -> NodeType {
    NodeType::Input(InputType::TestPattern)
}

#[test]
fn dev_state_starts_empty_and_stopped() {
    let st = DevAppState::new();
    let s = st.get_engine_status();
    assert!(!s.running);
    assert_eq!((s.frame_count, s.node_count, s.connection_count), (0, 0, 0));
}

#[test]
fn dev_add_node_announces_and_counts() {
    let mut st = DevAppState::new();
    let ev = st.add_node(7, pattern(), NodeConfig::new(), 100);
    assert!(matches!(ev, DevEngineEvent::NodeAdded { id: 7, .. }));
    assert!(st.has_node(7));
    assert_eq!(st.get_node(7).unwrap().created_at, 100);
    st.add_node(7, NodeType::Effect(EffectType::Blur), NodeConfig::new(), 200);
    assert_eq!(st.nodes().len(), 1);
    assert_eq!(st.get_node(7).unwrap().node_type, NodeType::Effect(EffectType::Blur));
}

#[test]
fn dev_connect_requires_both_nodes() {
    let mut st = DevAppState::new();
    st.add_node(1, pattern(), NodeConfig::new(), 0);
    let r = st.connect_nodes(1, 2, ConnectionType::RenderData);
    assert_eq!(r.unwrap_err(), DevError::EndpointMissing);
    assert_eq!(DevError::EndpointMissing.message(), "One or both nodes do not exist");
    st.add_node(2, pattern(), NodeConfig::new(), 0);
    assert!(st.connect_nodes(1, 2, ConnectionType::RenderData).is_ok());
    assert_eq!(st.get_engine_status().connection_count, 1);
}

#[test]
fn dev_remove_node_drops_its_connections() {
    let mut st = DevAppState::new();
    for id in 1..=3u128 {
        st.add_node(id, pattern(), NodeConfig::new(), 0);
    }
    st.connect_nodes(1, 2, ConnectionType::RenderData).unwrap();
    st.connect_nodes(2, 3, ConnectionType::Audio).unwrap();
    st.connect_nodes(1, 3, ConnectionType::Control).unwrap();
    let ev = st.remove_node(2);
    assert!(matches!(ev, Some(DevEngineEvent::NodeRemoved { id: 2 })));
    assert!(!st.has_node(2));
    assert_eq!(st.connections().len(), 1);
    assert_eq!((st.connections()[0].source_id, st.connections()[0].target_id), (1, 3));
    assert!(st.remove_node(2).is_none());
}

#[test]
fn dev_set_parameter_updates_config() {
    let mut st = DevAppState::new();
    st.add_node(5, pattern(), NodeConfig::new(), 0);
    let ev = st.set_node_parameter(5, "width", ParamValue::Integer(640)).unwrap();
    match ev {
        DevEngineEvent::ParameterChanged { node_id, parameter, value } => {
            assert_eq!(node_id, 5);
            assert_eq!(parameter, "width");
            assert_eq!(value.as_i64(), Some(640));
        }
        _ => panic!("unexpected event"),
    }
    assert_eq!(st.get_node(5).unwrap().config.get("width").unwrap().as_i64(), Some(640));
    let err = st.set_node_parameter(9, "width", ParamValue::Integer(1)).unwrap_err();
    assert_eq!(err, DevError::NodeMissing);
    assert_eq!(err.message(), "Node does not exist");
}

#[test]
fn dev_engine_start_stop_status() {
    let mut st = DevAppState::new();
    st.add_node(1, pattern(), NodeConfig::new(), 0);
    assert!(matches!(st.start_engine(), DevEngineEvent::EngineStarted));
    let s = st.get_engine_status();
    assert!(s.running);
    assert_eq!((s.frame_count, s.node_count), (12345, 1));
    assert!(matches!(st.stop_engine(), DevEngineEvent::EngineStopped));
    assert_eq!(st.get_engine_status().frame_count, 0);
}
