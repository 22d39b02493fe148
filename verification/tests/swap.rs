use havit_monitor::ico::{group_directory, parse, Image};
use havit_monitor::swap::{
    current_icon, is_leftover, location, resource_writes, split_location, stale_icon_ids, unique_file_name, IconCache,
    ResourceWrite, FIRST_ICON_ID,
};
use havit_monitor::Error;

#[test]
fn recognises_its_own_leftovers() {
    assert!(is_leftover("app.exe.1234-0.old", "app.exe"));
    assert!(is_leftover("app.exe.1234-7.new", "app.exe"));
}

#[test]
fn leaves_everything_else_alone() {
    assert!(!is_leftover("app.exe", "app.exe"));
    assert!(!is_leftover("app.exe.old", "app.exe"));
    assert!(!is_leftover("app.exe.backup-0.old", "app.exe"));
    assert!(!is_leftover("notes.txt", "app.exe"));
    assert!(!is_leftover("other.exe.1234-0.old", "app.exe"));
}

#[test]
fn leftover_needs_both_numbers_and_one_dash() {
    assert!(!is_leftover("app.exe.-0.old", "app.exe"));
    assert!(!is_leftover("app.exe.12-.old", "app.exe"));
    assert!(!is_leftover("app.exe.1-2-3.old", "app.exe"));
    assert!(!is_leftover("app.exe.12.old", "app.exe"));
    assert!(!is_leftover("app.exe.1-2.probe", "app.exe"));
    assert!(!is_leftover("app.exe_1-2.old", "app.exe"));
}

#[test]
fn unique_names_are_recognised_as_leftovers() {
    let staging = unique_file_name("app.exe", 4321, 0, "new");
    assert_eq!(staging, "app.exe.4321-0.new");
    let parked = unique_file_name("app.exe", 7, 12, "old");
    assert_eq!(parked, "app.exe.7-12.old");
    assert!(is_leftover(&staging, "app.exe"));
    assert!(is_leftover(&parked, "app.exe"));
    assert!(!is_leftover(&unique_file_name("alt-icons", 1, 2, "probe"), "app.exe"));
}

#[test]
fn stale_ids_are_the_ones_not_reused() {
    let data = [0u8; 4];
    let images: Vec<Image> = (0..5)
        .map(|_| Image { width: 1, height: 1, colors: 0, reserved: 0, planes: 1, bpp: 32, data: &data })
        .collect();
    let old_group = group_directory(&images, 1);
    assert_eq!(stale_icon_ids(Some(&old_group), 2), vec![3, 4, 5]);
    assert_eq!(stale_icon_ids(Some(&old_group), 5), Vec::<u16>::new());
    assert_eq!(stale_icon_ids(None, 2), Vec::<u16>::new());
    // An old id below the first one is never reused, so it goes too.
    let zero_based = group_directory(&images[..2], 0);
    assert_eq!(stale_icon_ids(Some(&zero_based), 1), vec![0]);
    assert_eq!(stale_icon_ids(Some(&zero_based), 0), vec![0, 1]);
}

#[test]
fn resources_are_written_in_order() {
    let mut ico = vec![0, 0, 1, 0, 2, 0];
    ico.extend_from_slice(&[16, 16, 0, 0, 1, 0, 32, 0]);
    ico.extend_from_slice(&2u32.to_le_bytes());
    ico.extend_from_slice(&38u32.to_le_bytes());
    ico.extend_from_slice(&[32, 32, 0, 0, 1, 0, 32, 0]);
    ico.extend_from_slice(&1u32.to_le_bytes());
    ico.extend_from_slice(&40u32.to_le_bytes());
    ico.extend_from_slice(&[0xA1, 0xA2, 0xB1]);
    let images = parse(&ico).expect("valid icon");
    let group = group_directory(&images, FIRST_ICON_ID);
    let stale = vec![3, 9];
    let writes = resource_writes(&images, &group, &stale, "Dark");
    assert_eq!(writes.len(), 6);
    assert!(matches!(writes[0], ResourceWrite::IconImage { id: 1, data } if data == [0xA1, 0xA2]));
    assert!(matches!(writes[1], ResourceWrite::IconImage { id: 2, data } if data == [0xB1]));
    assert!(matches!(writes[2], ResourceWrite::RemoveIconImage { id: 3 }));
    assert!(matches!(writes[3], ResourceWrite::RemoveIconImage { id: 9 }));
    assert!(matches!(writes[4], ResourceWrite::Group(g) if g == group.as_slice()));
    assert!(matches!(writes[5], ResourceWrite::State("Dark")));
}

#[test]
fn current_icon_reads_once_then_answers_from_the_cache() {
    let mut cache = IconCache::new();
    let mut reads = 0;
    let first = current_icon(&mut cache, || {
        reads += 1;
        Ok(Some(String::from("Warning")))
    });
    assert_eq!(first.unwrap(), Some(String::from("Warning")));
    let second = current_icon(&mut cache, || panic!("must not read again"));
    assert_eq!(second.unwrap(), Some(String::from("Warning")));
    assert_eq!(reads, 1);
}

#[test]
fn current_icon_keeps_nothing_after_a_failed_read() {
    let mut cache = IconCache::new();
    let failed = current_icon(&mut cache, || Err(Error::Windows("LoadLibraryExW", 2)));
    assert!(matches!(failed, Err(Error::Windows("LoadLibraryExW", 2))));
    assert!(!cache.loaded);
    let none = current_icon(&mut cache, || Ok(None));
    assert_eq!(none.unwrap(), None);
    assert!(cache.loaded);
}

#[test]
fn remembered_icon_is_current_without_reading() {
    let mut cache = IconCache::new();
    cache.remember("Critical");
    let answer = current_icon(&mut cache, || panic!("must not read"));
    assert_eq!(answer.unwrap(), Some(String::from("Critical")));
}

use havit_monitor::swap::{next_swap_step, start_swap, SwapAction, SwapState};

/// Runs a swap whose steps give `results` in turn; returns the actions asked for.
fn run(results: Vec<Result<(), Error>>) -> Vec<String> {
    let (mut state, mut action) = start_swap();
    let mut actions = Vec::new();
    let mut results = results.into_iter();
    loop {
        let name = match &action {
            SwapAction::AcquireLock => "lock",
            SwapAction::EnsureWritable => "probe",
            SwapAction::Prepare => "prepare",
            SwapAction::CopyToStaging => "copy",
            SwapAction::WriteResources => "write",
            SwapAction::ReplaceExecutable => "replace",
            SwapAction::ParkExecutable => "park",
            SwapAction::MoveStagingIn => "move-in",
            SwapAction::RestoreParked => "restore",
            SwapAction::RemoveStaging => "remove-staging",
            SwapAction::Succeed => "succeed",
            SwapAction::Fail(Error::Windows(call, code)) => {
                actions.push(format!("fail {call} {code}"));
                return actions;
            }
            SwapAction::Fail(_) => "fail",
            SwapAction::Finished => "finished",
        };
        actions.push(name.to_string());
        if matches!(action, SwapAction::Succeed | SwapAction::Fail(_)) {
            assert!(matches!(state, SwapState::Done));
            return actions;
        }
        let result = results.next().unwrap_or(Ok(()));
        (state, action) = next_swap_step(state, result);
    }
}

#[test]
fn swap_replaces_in_one_move_when_the_path_is_free() {
    assert_eq!(run(vec![]), ["lock", "probe", "prepare", "copy", "write", "replace", "succeed"]);
}

#[test]
fn swap_parks_the_running_image_on_the_first_swap() {
    let results = vec![Ok(()), Ok(()), Ok(()), Ok(()), Ok(()), Err(Error::Windows("MoveFileExW", 32))];
    assert_eq!(
        run(results),
        ["lock", "probe", "prepare", "copy", "write", "replace", "park", "move-in", "succeed"]
    );
    let results = vec![Ok(()), Ok(()), Ok(()), Ok(()), Ok(()), Err(Error::Windows("MoveFileExW", 5))];
    assert_eq!(run(results)[6], "park");
}

#[test]
fn swap_stops_before_touching_the_disk_when_the_icon_is_bad() {
    let results = vec![Ok(()), Ok(()), Err(Error::MalformedIcon("contains no images"))];
    assert_eq!(run(results), ["lock", "probe", "prepare", "fail"]);
    assert_eq!(run(vec![Err(Error::SwapInProgress)]), ["lock", "fail"]);
}

#[test]
fn swap_cleans_up_after_a_late_failure() {
    let results = vec![Ok(()), Ok(()), Ok(()), Ok(()), Err(Error::Windows("UpdateResourceW", 87))];
    assert_eq!(
        run(results),
        ["lock", "probe", "prepare", "copy", "write", "remove-staging", "fail UpdateResourceW 87"]
    );
    let results = vec![Ok(()), Ok(()), Ok(()), Ok(()), Ok(()), Err(Error::Windows("MoveFileExW", 2))];
    assert_eq!(
        run(results),
        ["lock", "probe", "prepare", "copy", "write", "replace", "remove-staging", "fail MoveFileExW 2"]
    );
    let results = vec![
        Ok(()),
        Ok(()),
        Ok(()),
        Ok(()),
        Ok(()),
        Err(Error::Windows("MoveFileExW", 32)),
        Ok(()),
        Err(Error::Windows("MoveFileExW", 183)),
        Err(Error::Windows("MoveFileExW", 2)),
    ];
    assert_eq!(
        run(results),
        [
            "lock", "probe", "prepare", "copy", "write", "replace", "park", "move-in", "restore",
            "remove-staging", "fail MoveFileExW 183"
        ]
    );
}

#[test]
fn swap_removes_staging_when_the_executable_cannot_be_parked() {
    let results = vec![
        Ok(()),
        Ok(()),
        Ok(()),
        Ok(()),
        Ok(()),
        Err(Error::Windows("MoveFileExW", 32)),
        Err(Error::Windows("MoveFileExW", 5)),
    ];
    assert_eq!(
        run(results),
        ["lock", "probe", "prepare", "copy", "write", "replace", "park", "remove-staging", "fail MoveFileExW 5"]
    );
}

#[test]
fn a_finished_swap_asks_for_nothing() {
    let (state, action) = next_swap_step(SwapState::Done, Ok(()));
    assert!(matches!(state, SwapState::Done));
    assert!(matches!(action, SwapAction::Finished));
}

use havit_monitor::swap::state_name;

#[test]
fn state_resource_decodes_as_utf8_or_not_at_all() {
    assert_eq!(state_name(None), None);
    assert_eq!(state_name(Some(b"Warning".to_vec())), Some(String::from("Warning")));
    assert_eq!(state_name(Some("Ícone".as_bytes().to_vec())), Some(String::from("Ícone")));
    assert_eq!(state_name(Some(vec![0xFF, 0x41])), None);
}

#[test]
fn location_splits_folder_and_file_name() {
    let exe = std::path::Path::new("apps/monitor/app.exe");
    let (dir, stem) = location(exe).expect("has a folder and a name");
    assert_eq!(dir, std::path::Path::new("apps/monitor"));
    assert_eq!(stem, "app.exe");
}

#[test]
fn location_without_a_file_name_is_not_writable() {
    let root = std::path::Path::new("/");
    assert!(matches!(location(root), Err(Error::PathNotWritable(p)) if p == std::path::PathBuf::from("/")));
    assert!(matches!(location(std::path::Path::new("")), Err(Error::PathNotWritable(_))));
}

#[test]
fn split_location_needs_both_parts() {
    let dir = std::path::Path::new("d");
    let exe = std::path::PathBuf::from("d/x.exe");
    let (got, stem) = split_location(Some(dir), Some("x.exe".to_string()), exe.clone()).unwrap();
    assert_eq!(got, dir);
    assert_eq!(stem, "x.exe");
    assert!(matches!(split_location(None, Some("x.exe".to_string()), exe.clone()), Err(Error::PathNotWritable(p)) if p == exe));
    assert!(matches!(split_location(Some(dir), None, exe.clone()), Err(Error::PathNotWritable(p)) if p == exe));
}
