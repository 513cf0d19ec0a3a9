use chattor::ui::view::{ttl_menu_index, viewed_channel_id};

#[test]
fn ttl_menu_highlights_the_current_setting() {
    assert_eq!(ttl_menu_index(None), 0);
    assert_eq!(ttl_menu_index(Some(300)), 1);
    assert_eq!(ttl_menu_index(Some(3600)), 2);
    assert_eq!(ttl_menu_index(Some(86400)), 3);
    assert_eq!(ttl_menu_index(Some(604800)), 4);
    // A value the menu does not offer shows as "off".
    assert_eq!(ttl_menu_index(Some(42)), 0);
}

#[test]
fn channel_views_list_the_right_posts() {
    assert_eq!(viewed_channel_id("public", true), 1);
    assert_eq!(viewed_channel_id("friends_only", true), 2);
    assert_eq!(viewed_channel_id("public", false), 0);
    assert_eq!(viewed_channel_id("friends_only", false), 0);
}
