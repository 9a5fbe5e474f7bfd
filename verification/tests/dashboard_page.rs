use arachno_pilot::dashboard_page::dashboard_html;

#[test]
fn dashboard_html_includes_sticky_side_rail_elements() {
    let html = dashboard_html();
    for needle in [
        "class=\"side-rail\"",
        "id=\"camera-rail-note\"",
        "id=\"rail-leg-previews\"",
        "id=\"rail-imu-summary\"",
        "id=\"robot-scene-view\"",
        "id=\"rail-visual-tab-legs\"",
        "id=\"rail-visual-tab-body\"",
    ] {
        assert!(html.contains(needle), "dashboard html should contain {needle}");
    }
}

#[test]
fn dashboard_html_includes_compact_preview_and_imu_helpers() {
    let html = dashboard_html();
    for needle in [
        "renderCompactLegRail",
        "renderCompactLegPreviewCard",
        "describeImuState",
        "updateRailImuPanel",
        "bindRailVisualTabs",
        "setRailVisualTab",
        "robotSceneLegTelemetryByKey",
        "renderRobotSceneFeedback",
        "ensureRobotSceneRuntime",
        "buildRobotSceneRoot",
        "updateRobotScene",
    ] {
        assert!(html.contains(needle), "dashboard html should contain helper {needle}");
    }
}

#[test]
fn dashboard_html_uses_threejs_orbit_renderer_for_robot_scene() {
    let html = dashboard_html();
    for needle in [
        "<script type=\"importmap\">",
        "three.module.js",
        "three/addons/controls/OrbitControls.js",
        "new THREE_NS.WebGLRenderer",
        "new OrbitControlsCtor",
        "camera.up.set(0, 0, 1);",
        "drag to orbit",
        "double-click to reset",
    ] {
        assert!(html.contains(needle), "dashboard html should contain {needle}");
    }
}

#[test]
fn dashboard_html_defaults_to_body_tab_with_larger_scene() {
    let html = dashboard_html();
    for needle in [
        "const railVisualTabState = { active: \"body\" };",
        "id=\"rail-visual-tab-body\" class=\"rail-tab-btn active\"",
        "id=\"rail-visual-pane-legs\" class=\"rail-tab-pane\" role=\"tabpanel\" aria-labelledby=\"rail-visual-tab-legs\" hidden",
        "min-height: 22.4rem;",
        "height: 22.4rem;",
    ] {
        assert!(html.contains(needle), "dashboard html should contain {needle}");
    }
}

#[test]
fn dashboard_html_robot_scene_integrates_servo_load_feedback() {
    let html = dashboard_html();
    for needle in [
        "id=\"robot-scene-feedback\"",
        "present_load_pct",
        "present_current_ma",
        "max load",
        "Leg segments and glow now reflect live servo load and resistance.",
    ] {
        assert!(html.contains(needle), "dashboard html should contain {needle}");
    }
}

#[test]
fn dashboard_html_robot_scene_tracks_load_per_leg_segment() {
    let html = dashboard_html();
    for needle in [
        "peakJointKey",
        "primaryFaultJointKey",
        "robotSceneJointColor",
        "color.segments[index]",
    ] {
        assert!(
            html.contains(needle),
            "dashboard html should contain per-joint scene feedback fragment {needle}"
        );
    }
}

#[test]
fn dashboard_html_robot_scene_uses_direct_ros_z_up_axes() {
    let html = dashboard_html();
    for needle in [
        "return new THREE_NS.Vector3(\n        Number(point?.x ?? 0),\n        Number(point?.y ?? 0),\n        Number(point?.z ?? 0),\n      );",
        "return new THREE_NS.Vector3(forward, left, up);",
        "pitchGroup.rotation.y = -Number(imu?.pitch_deg ?? 0) * Math.PI / 180;",
        "rollGroup.rotation.x = Number(imu?.roll_deg ?? 0) * Math.PI / 180;",
        "grid.rotation.x = Math.PI / 2;",
    ] {
        assert!(html.contains(needle), "dashboard html should contain {needle}");
    }
    for needle in [
        "-Number(point?.y ?? 0)",
        "rollGroup.rotation.z =",
        "pitchGroup.rotation.x =",
    ] {
        assert!(
            !html.contains(needle),
            "dashboard html should no longer contain legacy scene basis fragment {needle}"
        );
    }
}

#[test]
fn dashboard_html_includes_wide_two_column_rail_and_body_aligned_leg_glance() {
    let html = dashboard_html();
    for needle in [
        "grid-template-columns: minmax(0, 1fr) clamp(38rem, 46vw, 52rem);",
        "grid-template-columns: repeat(2, minmax(0, 1fr));",
        "class=\"panel rail-panel rail-span-2\"",
        "Leg Visuals",
        "role=\"tablist\"",
        "class=\"rail-leg-body\"",
        "ROS body frame",
        "railClass: \"front-left\"",
        "railClass: \"rear-right\"",
    ] {
        assert!(html.contains(needle), "dashboard html should contain {needle}");
    }
}

#[test]
fn dashboard_layout_wraps_side_rail_inside_the_grid_section() {
    let html = dashboard_html();
    let main_column_close = html
        .find("</section>\n      </div>\n\n      <aside class=\"side-rail\"")
        .expect("main column should close immediately before the side rail");
    let rail_start = html[main_column_close..]
        .find("<aside class=\"side-rail\"")
        .map(|offset| main_column_close + offset)
        .expect("side rail should exist");
    let layout_end = html[rail_start..]
        .find("</aside>\n    </section>")
        .map(|offset| rail_start + offset)
        .expect("layout section should close immediately after the side rail");

    assert!(
        layout_end > rail_start,
        "layout section should keep the side rail inside the grid"
    );
}

#[test]
fn dashboard_html_includes_per_slider_torque_controls_for_legs_and_arm() {
    let html = dashboard_html();
    for needle in [
        "id=\"manual-coxa-torque-limit\"",
        "id=\"manual-femur-torque-limit\"",
        "id=\"manual-tibia-torque-limit\"",
        "id=\"arm-${joint.key}-torque-limit\"",
        "const armTorqueLimitUrl = \"/api/arm/torque-limit\";",
        "applyManualAxisTorqueLimit",
        "applyArmJointTorqueLimit",
    ] {
        assert!(html.contains(needle), "dashboard html should contain {needle}");
    }
}

#[test]
fn dashboard_html_is_a_complete_document() {
    let html = dashboard_html();
    assert!(html.starts_with("<!doctype html>") || html.starts_with("<!DOCTYPE html>"));
    assert!(html.trim_end().ends_with("</html>"));
}

#[test]
fn monitor_html_polls_state_and_streams_the_camera() {
    let html = arachno_pilot::monitor_page::monitor_html();
    assert!(html.starts_with("<!doctype html>"));
    assert!(html.trim_end().ends_with("</html>"));
    assert!(html.contains("<title>Arachno Dashboard</title>"));
    assert!(html.contains("const stateUrl = \"/api/state\";"));
    assert!(html.contains("const cameraUrl = \"/camera.mjpg\";"));
}
