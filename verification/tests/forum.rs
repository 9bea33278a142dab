use forum_watch::forum::{get_url, LabelError, SectionList, Sort, BASE_URL};

#[test]
fn listing_address_names_board_and_order() {
    assert_eq!(
        get_url(SectionList::Whisky, Sort::LastReplyTime),
        "https://www.p9.com.tw/Forum/ForumSection.aspx?Id=1&Sort=Last_Reply_Time"
    );
    assert_eq!(
        get_url(SectionList::Brandy, Sort::PostTime),
        "https://www.p9.com.tw/Forum/ForumSection.aspx?Id=3&Sort=Post_Time"
    );
    assert_eq!(
        get_url(SectionList::Whisky, Sort::PostTime),
        format!("{}?Id={}&Sort={}", BASE_URL, 1, "Post_Time")
    );
}

#[test]
fn boards_have_their_labels_and_numbers() {
    assert_eq!(SectionList::Whisky.zh_name(), "威士忌");
    assert_eq!(SectionList::Brandy.zh_name(), "白蘭地");
    assert_eq!(SectionList::Whisky.get_id(), 1);
    assert_eq!(SectionList::Brandy.get_id(), 3);
    assert_eq!(SectionList::Whisky.get_auction_id(), 5);
    assert_eq!(SectionList::Brandy.get_auction_id(), 12);
}

#[test]
fn orders_have_their_labels_and_query_values() {
    assert_eq!(Sort::LastReplyTime.get_method_name(), "最後回應時間");
    assert_eq!(Sort::PostTime.get_method_name(), "發文時間");
    assert_eq!(Sort::LastReplyTime.get_query_string(), "Last_Reply_Time");
    assert_eq!(Sort::PostTime.get_query_string(), "Post_Time");
}

#[test]
fn board_labels_round_trip() {
    for section in [SectionList::Whisky, SectionList::Brandy] {
        assert_eq!(SectionList::get_by_zh_name(section.zh_name().to_string()), Some(section));
        assert_eq!(SectionList::from_zh_name(section.zh_name()), Ok(section));
    }
}

#[test]
fn order_labels_round_trip() {
    for sort in [Sort::LastReplyTime, Sort::PostTime] {
        assert_eq!(Sort::get_by_zh_name(sort.get_method_name().to_string()), Some(sort));
        assert_eq!(Sort::from_zh_name(sort.get_method_name()), Ok(sort));
    }
}

#[test]
fn unknown_board_label_is_rejected() {
    assert_eq!(SectionList::get_by_zh_name("清酒".to_string()), None);
    assert_eq!(SectionList::get_by_zh_name(String::new()), None);
    assert_eq!(SectionList::get_by_zh_name("威士".to_string()), None);
    assert_eq!(SectionList::get_by_zh_name("威士忌 ".to_string()), None);
    assert_eq!(SectionList::from_zh_name("發文時間"), Err(LabelError::UnknownSection));
}

#[test]
fn unknown_order_label_is_rejected() {
    assert_eq!(Sort::get_by_zh_name("Post_Time".to_string()), None);
    assert_eq!(Sort::get_by_zh_name(String::new()), None);
    assert_eq!(Sort::from_zh_name("威士忌"), Err(LabelError::UnknownSort));
}

#[test]
fn boards_and_orders_show_their_labels() {
    assert_eq!(SectionList::Whisky.to_string(), "威士忌");
    assert_eq!(SectionList::Brandy.to_string(), "白蘭地");
    assert_eq!(Sort::LastReplyTime.to_string(), "最後回應時間");
    assert_eq!(Sort::PostTime.to_string(), "發文時間");
}
