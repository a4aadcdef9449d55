use cmakr::error::Error;
use cmakr::locate::{locate_in, locate_step, marker_file, Search};

#[test]
fn marker_file_is_cmakr_toml() {
    assert_eq!(marker_file(), "cmakr.toml");
}

#[test]
fn a_present_marker_ends_the_search() {
    assert_eq!(locate_step(true, true), Search::Found);
    assert_eq!(locate_step(true, false), Search::Found);
}

#[test]
fn an_absent_marker_sends_the_search_up() {
    assert_eq!(locate_step(false, true), Search::Ascend);
}

#[test]
fn the_root_without_marker_ends_the_search() {
    assert_eq!(locate_step(false, false), Search::GiveUp);
}

#[test]
fn the_nearest_marker_is_located() {
    assert_eq!(locate_in(&vec![true]), Ok(0));
    assert_eq!(locate_in(&vec![false, false, true, false, true]), Ok(2));
    assert_eq!(locate_in(&vec![false, false, false, true]), Ok(3));
    assert_eq!(locate_in(&vec![true, true]), Ok(0));
}

#[test]
fn a_chain_without_marker_has_no_config() {
    assert_eq!(locate_in(&vec![]), Err(Error::ConfigNotFound));
    assert_eq!(locate_in(&vec![false]), Err(Error::ConfigNotFound));
    assert_eq!(locate_in(&vec![false, false, false]), Err(Error::ConfigNotFound));
}
