use termusiclib::config_editor::{
    key_focus_step, preview_theme_source, update_key_focus_global, update_key_focus_other,
    ThemeSource,
};
use termusiclib::ids::{IdKey, IdKeyGlobal, IdKeyOther};
use termusiclib::msg::{kfglobal_focus_order, kfother_focus_order, KFMsg, SearchCriteria};

// ensure that assumptions about the first entry of the global focus order can be made correctly
#[test]
fn kfglobal_focus_order_should_be_nonzero() {
    assert!(!kfglobal_focus_order().is_empty());
}

#[test]
fn kfglobal_focus_order_should_only_contain_global() {
    for entry in kfglobal_focus_order() {
        assert_eq!(
            std::mem::discriminant(&entry),
            std::mem::discriminant(&IdKey::Global(IdKeyGlobal::Config))
        );
    }
}

// ensure that assumptions about the first entry of the other focus order can be made correctly
#[test]
fn kfother_focus_order_should_be_nonzero() {
    assert!(!kfother_focus_order().is_empty());
}

#[test]
fn kfother_focus_order_should_only_contain_other() {
    for entry in kfother_focus_order() {
        assert_eq!(
            std::mem::discriminant(&entry),
            std::mem::discriminant(&IdKey::Other(IdKeyOther::DatabaseAddAll))
        );
    }
}

#[test]
fn focus_orders_have_their_lengths_and_ends() {
    let global = kfglobal_focus_order();
    assert_eq!(global.len(), 33);
    assert_eq!(global[0], IdKey::Global(IdKeyGlobal::LayoutTreeview));
    assert_eq!(global[32], IdKey::Global(IdKeyGlobal::XywhHide));
    let other = kfother_focus_order();
    assert_eq!(other.len(), 30);
    assert_eq!(other[0], IdKey::Other(IdKeyOther::LibraryAddRoot));
    assert_eq!(other[29], IdKey::Other(IdKeyOther::PodcastRefreshAllFeeds));
}

#[test]
fn focus_moves_forward_and_wraps() {
    assert_eq!(
        update_key_focus_global(Some(IdKeyGlobal::LayoutTreeview), KFMsg::Next),
        IdKey::Global(IdKeyGlobal::LayoutDatabase)
    );
    assert_eq!(
        update_key_focus_global(Some(IdKeyGlobal::XywhHide), KFMsg::Next),
        IdKey::Global(IdKeyGlobal::LayoutTreeview)
    );
    assert_eq!(
        update_key_focus_other(Some(IdKeyOther::LibraryTagEditor), KFMsg::Next),
        IdKey::Other(IdKeyOther::PlaylistShuffle)
    );
}

#[test]
fn focus_moves_backward_and_wraps() {
    assert_eq!(
        update_key_focus_global(Some(IdKeyGlobal::Quit), KFMsg::Previous),
        IdKey::Global(IdKeyGlobal::LayoutPodcast)
    );
    assert_eq!(
        update_key_focus_global(Some(IdKeyGlobal::LayoutTreeview), KFMsg::Previous),
        IdKey::Global(IdKeyGlobal::XywhHide)
    );
    assert_eq!(
        update_key_focus_other(Some(IdKeyOther::LibraryAddRoot), KFMsg::Previous),
        IdKey::Other(IdKeyOther::PodcastRefreshAllFeeds)
    );
}

#[test]
fn lost_focus_goes_to_the_first_entry() {
    assert_eq!(
        update_key_focus_global(None, KFMsg::Previous),
        IdKey::Global(IdKeyGlobal::LayoutTreeview)
    );
    assert_eq!(
        update_key_focus_other(None, KFMsg::Next),
        IdKey::Other(IdKeyOther::LibraryAddRoot)
    );
}

#[test]
fn focus_step_on_a_list_with_repeats_and_strangers() {
    let a = IdKey::Global(IdKeyGlobal::Up);
    let b = IdKey::Global(IdKeyGlobal::Down);
    let c = IdKey::Global(IdKeyGlobal::Left);
    let order = vec![a, b, a, c];
    // forward from the first place of `a`, backward from its last place
    assert_eq!(key_focus_step(&order, Some(a), KFMsg::Next), b);
    assert_eq!(key_focus_step(&order, Some(a), KFMsg::Previous), b);
    // an entry that is not in the list
    let stranger = IdKey::Other(IdKeyOther::LibraryYank);
    assert_eq!(key_focus_step(&order, Some(stranger), KFMsg::Next), a);
    assert_eq!(key_focus_step(&order, Some(stranger), KFMsg::Previous), c);
    // a list of one entry
    let single = vec![c];
    assert_eq!(key_focus_step(&single, Some(c), KFMsg::Next), c);
    assert_eq!(key_focus_step(&single, Some(c), KFMsg::Previous), c);
}

#[test]
fn theme_rows() {
    assert_eq!(preview_theme_source(0, 0), Some(ThemeSource::Default));
    assert_eq!(preview_theme_source(1, 0), Some(ThemeSource::Native));
    assert_eq!(preview_theme_source(2, 0), None);
    assert_eq!(preview_theme_source(2, 3), Some(ThemeSource::File(0)));
    assert_eq!(preview_theme_source(4, 3), Some(ThemeSource::File(2)));
    assert_eq!(preview_theme_source(5, 3), None);
}

#[test]
fn search_criteria_names() {
    assert_eq!(SearchCriteria::Artist.as_str(), "artist");
    assert_eq!(SearchCriteria::Album.as_str(), "album");
    assert_eq!(SearchCriteria::Genre.as_str(), "genre");
    assert_eq!(SearchCriteria::Directory.as_str(), "directory");
    assert_eq!(SearchCriteria::Playlist.as_str(), "playlist");
}
