use discord_rpc::errors::DiscordRPCError;
use discord_rpc::utils::{env_keys, get_pipe_pattern, pipe_candidates, temp_directory, Platform};

fn only(index: usize) -> Vec<bool> {
    (0..10).map(|i| i == index).collect()
}

#[test]
fn env_keys_are_consulted_in_a_fixed_order() {
    assert_eq!(env_keys(), vec!["XDG_RUNTIME_DIR", "TMPDIR", "TMP", "TEMP"]);
}

#[test]
fn temp_directory_is_the_first_value_that_is_set() {
    let values = vec![None, Some("/var/tmp".to_string()), None, Some("/tmp".to_string())];
    assert_eq!(temp_directory(&values), "/var/tmp");
}

#[test]
fn temp_directory_prefers_the_runtime_directory() {
    let values = vec![
        Some("/run/user/1000".to_string()),
        Some("/var/tmp".to_string()),
        Some("/tmp".to_string()),
        Some("/temp".to_string()),
    ];
    assert_eq!(temp_directory(&values), "/run/user/1000");
}

#[test]
fn temp_directory_is_empty_when_nothing_is_set() {
    assert_eq!(temp_directory(&vec![None, None, None, None]), "");
    assert_eq!(temp_directory(&Vec::new()), "");
}

#[test]
fn temp_directory_takes_an_empty_value_as_set() {
    let values = vec![Some(String::new()), Some("/tmp".to_string())];
    assert_eq!(temp_directory(&values), "");
}

#[test]
fn unix_candidates_lie_in_the_temporary_directory() {
    let paths = pipe_candidates(Platform::Unix, "/run/user/1000");
    assert_eq!(paths.len(), 10);
    for (i, path) in paths.iter().enumerate() {
        assert_eq!(path, &format!("/run/user/1000/discord-ipc-{}", i));
    }
}

#[test]
fn unix_candidates_do_not_double_a_trailing_separator() {
    let paths = pipe_candidates(Platform::Unix, "/var/folders/T/");
    assert_eq!(paths[0], "/var/folders/T/discord-ipc-0");
    assert_eq!(paths[9], "/var/folders/T/discord-ipc-9");
}

#[test]
fn unix_candidates_are_relative_without_a_directory() {
    let paths = pipe_candidates(Platform::Unix, "");
    assert_eq!(paths[0], "discord-ipc-0");
    assert_eq!(paths[7], "discord-ipc-7");
}

#[test]
fn unix_candidates_agree_with_path_join() {
    for base in ["", "/", "/tmp", "/tmp/", "relative/dir", "/päth/ü"] {
        let paths = pipe_candidates(Platform::Unix, base);
        for (i, path) in paths.iter().enumerate() {
            let joined = std::path::Path::new(base).join(format!("discord-ipc-{}", i));
            assert_eq!(path.as_str(), joined.to_str().unwrap());
        }
    }
}

#[test]
fn windows_candidates_lie_in_the_pipe_namespace() {
    let paths = pipe_candidates(Platform::Windows, "C:\\Temp");
    assert_eq!(paths.len(), 10);
    for (i, path) in paths.iter().enumerate() {
        assert_eq!(path, &format!(r"\\?\pipe\discord-ipc-{}", i));
    }
}

#[test]
fn locator_returns_the_only_candidate_that_exists() {
    let path = get_pipe_pattern(Platform::Unix, "/tmp", &only(3));
    assert_eq!(path, Ok("/tmp/discord-ipc-3".to_string()));
}

#[test]
fn locator_returns_the_first_of_several_candidates() {
    let mut exists = vec![false; 10];
    exists[4] = true;
    exists[6] = true;
    exists[9] = true;
    let path = get_pipe_pattern(Platform::Unix, "/tmp", &exists);
    assert_eq!(path, Ok("/tmp/discord-ipc-4".to_string()));
}

#[test]
fn locator_handles_the_first_and_the_last_index() {
    assert_eq!(get_pipe_pattern(Platform::Unix, "/tmp", &only(0)), Ok("/tmp/discord-ipc-0".to_string()));
    assert_eq!(get_pipe_pattern(Platform::Unix, "/tmp", &only(9)), Ok("/tmp/discord-ipc-9".to_string()));
    assert_eq!(
        get_pipe_pattern(Platform::Windows, "", &only(9)),
        Ok(r"\\?\pipe\discord-ipc-9".to_string())
    );
}

#[test]
fn locator_reports_a_missing_endpoint_as_an_error() {
    let path = get_pipe_pattern(Platform::Unix, "/tmp", &vec![false; 10]);
    assert_eq!(path, Err(DiscordRPCError::EndpointNotFound));
    assert_eq!(get_pipe_pattern(Platform::Windows, "", &Vec::new()), Err(DiscordRPCError::EndpointNotFound));
}

#[test]
fn locator_looks_at_no_more_than_ten_candidates() {
    let mut exists = vec![false; 12];
    exists[10] = true;
    exists[11] = true;
    assert_eq!(get_pipe_pattern(Platform::Unix, "/tmp", &exists), Err(DiscordRPCError::EndpointNotFound));
}

#[test]
fn locator_takes_missing_entries_as_not_found() {
    assert_eq!(
        get_pipe_pattern(Platform::Unix, "/tmp", &vec![false, false]),
        Err(DiscordRPCError::EndpointNotFound)
    );
    assert_eq!(
        get_pipe_pattern(Platform::Unix, "/tmp", &vec![false, true]),
        Ok("/tmp/discord-ipc-1".to_string())
    );
}

#[test]
fn locator_gives_the_same_answer_for_the_same_state() {
    let exists = only(5);
    let first = get_pipe_pattern(Platform::Unix, "/run", &exists);
    let second = get_pipe_pattern(Platform::Unix, "/run", &exists);
    assert_eq!(first, second);
    assert_eq!(first, Ok("/run/discord-ipc-5".to_string()));
}
