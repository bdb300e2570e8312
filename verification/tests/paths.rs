use server_supervisor::decimal::decimal_text;
use server_supervisor::paths::{
    data_dir_path, database_file_path, entry_script_path, log_dir_path, log_file_path,
    resource_path, runtime_path, server_dir_path, Location, Root,
};

fn location(root: Root, segments: &[&str]) -> Location {
    Location { root, segments: segments.iter().map(|s| s.to_string()).collect() }
}

#[test]
fn location_at_root_has_no_segments() {
    assert_eq!(Location::at(Root::ResourceDir), location(Root::ResourceDir, &[]));
    assert_eq!(Location::at(Root::AppDataDir), location(Root::AppDataDir, &[]));
}

#[test]
fn join_appends_one_segment_and_keeps_the_root() {
    let joined = Location::at(Root::AppDataDir).join("a").join("b c");
    assert_eq!(joined, location(Root::AppDataDir, &["a", "b c"]));
}

#[test]
fn join_keeps_a_fragment_with_a_separator_as_one_segment() {
    let joined = Location::at(Root::ResourceDir).join("x/y");
    assert_eq!(joined.segments.len(), 1);
    assert_eq!(joined.segments[0], "x/y");
}

#[test]
fn resource_path_goes_through_the_resources_directory() {
    assert_eq!(resource_path("next"), location(Root::ResourceDir, &["resources", "next"]));
    assert_eq!(resource_path(""), location(Root::ResourceDir, &["resources", ""]));
}

#[test]
fn server_dir_is_next_among_the_resources() {
    assert_eq!(server_dir_path(), location(Root::ResourceDir, &["resources", "next"]));
}

#[test]
fn entry_script_is_server_js_in_the_server_dir() {
    assert_eq!(
        entry_script_path(),
        location(Root::ResourceDir, &["resources", "next", "server.js"])
    );
}

#[test]
fn runtime_is_bin_node_among_the_resources() {
    assert_eq!(runtime_path(), location(Root::ResourceDir, &["resources", "bin/node"]));
}

#[test]
fn data_dir_is_data_under_the_user_root() {
    assert_eq!(data_dir_path(), location(Root::AppDataDir, &["data"]));
}

#[test]
fn log_dir_is_logs_in_the_data_dir() {
    assert_eq!(log_dir_path(), location(Root::AppDataDir, &["data", "logs"]));
}

#[test]
fn log_file_has_its_fixed_name_in_the_log_dir() {
    assert_eq!(log_file_path(), location(Root::AppDataDir, &["data", "logs", "next-server.log"]));
}

#[test]
fn database_file_lies_in_the_data_dir() {
    assert_eq!(database_file_path(), location(Root::AppDataDir, &["data", "moondream.sqlite3"]));
}

#[test]
fn decimal_text_of_zero_is_one_digit() {
    assert_eq!(decimal_text(0), "0");
}

#[test]
fn decimal_text_of_single_digits() {
    for (n, text) in [(1u16, "1"), (5, "5"), (9, "9")] {
        assert_eq!(decimal_text(n), text);
    }
}

#[test]
fn decimal_text_at_the_powers_of_ten() {
    assert_eq!(decimal_text(10), "10");
    assert_eq!(decimal_text(99), "99");
    assert_eq!(decimal_text(100), "100");
    assert_eq!(decimal_text(1000), "1000");
    assert_eq!(decimal_text(10000), "10000");
}

#[test]
fn decimal_text_keeps_inner_zeros() {
    assert_eq!(decimal_text(3210), "3210");
    assert_eq!(decimal_text(10203), "10203");
    assert_eq!(decimal_text(8080), "8080");
}

#[test]
fn decimal_text_of_the_largest_port() {
    assert_eq!(decimal_text(65535), "65535");
}

#[test]
fn decimal_text_agrees_with_the_standard_rendering_everywhere() {
    for n in 0..=u16::MAX {
        assert_eq!(decimal_text(n), n.to_string());
    }
}
