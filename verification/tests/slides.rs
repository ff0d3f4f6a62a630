use image::DynamicImage;
use ratatui_image::picker::Picker;
use tui_slides::action::{Action, Effect};
use tui_slides::deck::{DeckSource, LoadError};
use tui_slides::enums::{
    Border, BoxSizeJson, ContentJson, DrawCall, ImageRequest, ReturnSlideWidget, SlideContentType,
    SlideJson, SlidesJson,
};
use tui_slides::images::ImageResolutionError;
use tui_slides::layout::Rect;
use tui_slides::slides::Slides;

fn fresh() -> Slides {
    Slides::new(Picker::from_fontsize((8, 16)))
}

fn screen() -> Rect {
    Rect { x: 0, y: 0, width: 100, height: 50 }
}

fn item(kind: SlideContentType, content: Option<&str>, rect: Option<Rect>) -> ContentJson {
    ContentJson {
        type_: kind,
        content: content.map(|text| text.to_string()),
        rect,
        data: None,
        color: None,
    }
}

fn slide(title: Option<&str>, content: Vec<ContentJson>) -> SlideJson {
    SlideJson { title: title.map(|text| text.to_string()), content }
}

fn deck(slides: Vec<SlideJson>) -> SlidesJson {
    SlidesJson { box_size: BoxSizeJson { percent_width: 80, percent_height: 80 }, slides }
}

fn numbered(count: usize) -> SlidesJson {
    deck((0..count).map(|n| slide(Some(&format!("slide {n}")), Vec::new())).collect())
}

fn picture() -> Option<DynamicImage> {
    Some(DynamicImage::new_rgb8(4, 4))
}

fn shown(deck: SlidesJson) -> Slides {
    let mut slides = fresh();
    assert_eq!(slides.init("deck.json".to_string(), DeckSource::Parsed(deck)), Ok(Vec::new()));
    slides
}

#[test]
fn new_component_has_no_deck() {
    let slides = fresh();
    assert_eq!(slides.slide_index(), 0);
    assert_eq!(slides.slide_count(), 0);
    assert_eq!(slides.image_count(), 0);
    assert_eq!(slides.json_slides(), "");
    assert_eq!(slides.get_slide(), None);
    assert_eq!(slides.image_requests(), Vec::new());
    assert!(slides.is_cache_current());
}

#[test]
fn new_component_draws_the_placeholder() {
    let slides = fresh();
    assert!(slides.can_draw(screen()));
    assert_eq!(
        slides.draw(screen()).unwrap(),
        vec![
            DrawCall {
                widget: ReturnSlideWidget::BigText("__title__".to_string()),
                area: Rect { x: 10, y: 7, width: 80, height: 40 },
                color: None,
            },
            DrawCall {
                widget: ReturnSlideWidget::Block(Border::Page { current: 1, total: 0 }),
                area: Rect { x: 10, y: 5, width: 80, height: 40 },
                color: Some("#FFDDDD".to_string()),
            },
        ]
    );
}

#[test]
fn init_shows_the_first_slide() {
    let mut slides = fresh();
    let requests = slides.init("talk/deck.json".to_string(), DeckSource::Parsed(numbered(3)));
    assert_eq!(requests, Ok(Vec::new()));
    assert_eq!(slides.json_slides(), "talk/deck.json");
    assert_eq!(slides.slide_index(), 0);
    assert_eq!(slides.slide_count(), 3);
    assert_eq!(slides.get_slide(), Some(&slide(Some("slide 0"), Vec::new())));
}

#[test]
fn init_keeps_the_path_of_a_refused_deck() {
    let mut slides = fresh();
    assert_eq!(
        slides.init("missing.json".to_string(), DeckSource::Unreadable),
        Err(LoadError::Unreadable)
    );
    assert_eq!(slides.json_slides(), "missing.json");
    assert_eq!(slides.slide_count(), 0);
    assert_eq!(slides.get_slide(), None);
}

#[test]
fn refused_deck_changes_nothing() {
    let mut slides = shown(numbered(3));
    slides.next_slide();
    assert_eq!(slides.get_json_slides(DeckSource::Unreadable), Err(LoadError::Unreadable));
    assert_eq!(slides.get_json_slides(DeckSource::Unparsable), Err(LoadError::Malformed));
    assert_eq!(
        slides.get_json_slides(DeckSource::Parsed(deck(Vec::new()))),
        Err(LoadError::Malformed)
    );
    let mut wide = numbered(2);
    wide.box_size.percent_width = 101;
    assert_eq!(slides.get_json_slides(DeckSource::Parsed(wide)), Err(LoadError::Malformed));
    assert_eq!(slides.slide_index(), 1);
    assert_eq!(slides.slide_count(), 3);
    assert_eq!(slides.json_slides(), "deck.json");
    assert_eq!(slides.get_slide(), Some(&slide(Some("slide 1"), Vec::new())));
}

#[test]
fn next_and_previous_wrap_round() {
    let mut slides = shown(numbered(3));
    slides.next_slide();
    assert_eq!(slides.slide_index(), 1);
    slides.next_slide();
    assert_eq!(slides.slide_index(), 2);
    slides.next_slide();
    assert_eq!(slides.slide_index(), 0);
    slides.previous_slide();
    assert_eq!(slides.slide_index(), 2);
    slides.previous_slide();
    assert_eq!(slides.slide_index(), 1);
    assert_eq!(slides.slide_count(), 3);
}

#[test]
fn next_as_often_as_there_are_slides_leads_back() {
    for count in 1..6 {
        for start in 0..count {
            let mut slides = shown(numbered(count));
            for _ in 0..start {
                slides.next_slide();
            }
            assert_eq!(slides.slide_index(), start);
            for _ in 0..count {
                slides.update(Action::Next);
            }
            assert_eq!(slides.slide_index(), start);
        }
    }
}

#[test]
fn previous_after_next_leads_back() {
    for count in 1..6 {
        for start in 0..count {
            let mut slides = shown(numbered(count));
            for _ in 0..start {
                slides.next_slide();
            }
            slides.update(Action::Next);
            slides.update(Action::Previous);
            assert_eq!(slides.slide_index(), start);
            slides.update(Action::Previous);
            slides.update(Action::Next);
            assert_eq!(slides.slide_index(), start);
        }
    }
}

#[test]
fn reload_and_quit_leave_the_component_as_it_is() {
    let mut slides = shown(numbered(3));
    slides.next_slide();
    assert_eq!(slides.update(Action::Reload), Effect::ReloadDeck);
    assert_eq!(slides.update(Action::Quit), Effect::Nothing);
    assert_eq!(slides.slide_index(), 1);
    assert_eq!(slides.slide_count(), 3);
    let mut empty = fresh();
    assert_eq!(empty.update(Action::Reload), Effect::ReloadDeck);
    assert_eq!(empty.update(Action::Quit), Effect::Nothing);
}

#[test]
fn reload_with_fewer_slides_goes_to_the_new_last_slide() {
    let mut slides = shown(numbered(5));
    for _ in 0..4 {
        slides.next_slide();
    }
    assert_eq!(slides.slide_index(), 4);
    assert_eq!(slides.get_json_slides(DeckSource::Parsed(numbered(3))), Ok(Vec::new()));
    assert_eq!(slides.slide_index(), 2);
    assert_eq!(slides.slide_count(), 3);
    assert_eq!(slides.get_slide(), Some(&slide(Some("slide 2"), Vec::new())));
}

#[test]
fn reload_keeps_a_position_that_is_still_there() {
    let mut slides = shown(numbered(5));
    slides.next_slide();
    slides.next_slide();
    assert_eq!(slides.get_json_slides(DeckSource::Parsed(numbered(3))), Ok(Vec::new()));
    assert_eq!(slides.slide_index(), 2);
    assert_eq!(slides.get_json_slides(DeckSource::Parsed(numbered(9))), Ok(Vec::new()));
    assert_eq!(slides.slide_index(), 2);
    assert_eq!(slides.slide_count(), 9);
    assert_eq!(slides.get_json_slides(DeckSource::Parsed(numbered(1))), Ok(Vec::new()));
    assert_eq!(slides.slide_index(), 0);
}

#[test]
fn one_slide_with_one_line() {
    let mut slides = fresh();
    let parsed = deck(vec![slide(
        Some("Intro"),
        vec![item(SlideContentType::Line, Some("hi"), None)],
    )]);
    assert_eq!(slides.init("deck.json".to_string(), DeckSource::Parsed(parsed)), Ok(Vec::new()));
    assert_eq!(slides.update(Action::Next), Effect::LoadImages(Vec::new()));
    assert_eq!(slides.update(Action::Previous), Effect::LoadImages(Vec::new()));
    assert_eq!(slides.store_images(Vec::new()), Ok(()));
    assert_eq!(slides.slide_index(), 0);
    assert!(slides.can_draw(screen()));
    let content_box = Rect { x: 10, y: 5, width: 80, height: 40 };
    assert_eq!(
        slides.draw(screen()).unwrap(),
        vec![
            DrawCall {
                widget: ReturnSlideWidget::BigText("Intro".to_string()),
                area: Rect { x: 10, y: 7, width: 80, height: 40 },
                color: None,
            },
            DrawCall {
                widget: ReturnSlideWidget::Block(Border::Page { current: 1, total: 1 }),
                area: content_box,
                color: Some("#FFDDDD".to_string()),
            },
            DrawCall {
                widget: ReturnSlideWidget::Line("hi".to_string()),
                area: content_box,
                color: None,
            },
        ]
    );
}

#[test]
fn picture_on_the_second_slide() {
    let mut slides = fresh();
    let parsed = deck(vec![
        slide(Some("one"), Vec::new()),
        slide(
            Some("two"),
            vec![item(
                SlideContentType::Image,
                Some("cat.png"),
                Some(Rect { x: 2, y: 4, width: 30, height: 12 }),
            )],
        ),
    ]);
    assert_eq!(slides.init("deck.json".to_string(), DeckSource::Parsed(parsed)), Ok(Vec::new()));
    assert_eq!(slides.store_images(Vec::new()), Ok(()));
    assert_eq!(slides.image_count(), 0);

    let wanted = vec![ImageRequest { item: 0, path: "cat.png".to_string() }];
    assert_eq!(slides.update(Action::Next), Effect::LoadImages(wanted.clone()));
    assert_eq!(slides.image_requests(), wanted);
    assert_eq!(slides.image_count(), 0);
    assert!(!slides.is_cache_current());
    assert!(!slides.can_draw(screen()));

    assert_eq!(slides.store_images(vec![picture()]), Ok(()));
    assert_eq!(slides.image_count(), 1);
    assert!(slides.is_cache_current());
    assert!(slides.can_draw(screen()));
    let calls = slides.draw(screen()).unwrap();
    assert_eq!(calls.len(), 4);
    assert_eq!(
        calls[1].widget,
        ReturnSlideWidget::Block(Border::Page { current: 2, total: 2 })
    );
    assert_eq!(
        calls[2],
        DrawCall {
            widget: ReturnSlideWidget::Block(Border::Backdrop),
            area: Rect { x: 11, y: 8, width: 32, height: 14 },
            color: Some("#FFDDDD".to_string()),
        }
    );
    assert_eq!(
        calls[3],
        DrawCall {
            widget: ReturnSlideWidget::Image(0),
            area: Rect { x: 12, y: 9, width: 30, height: 12 },
            color: None,
        }
    );
    slides.get_image(0);

    assert_eq!(slides.update(Action::Previous), Effect::LoadImages(Vec::new()));
    assert_eq!(slides.image_count(), 0);
    assert!(slides.is_cache_current());
    assert_eq!(slides.draw(screen()).unwrap().len(), 2);
}

#[test]
fn cache_holds_the_pictures_of_the_slide_in_order() {
    let content = vec![
        item(SlideContentType::Line, Some("a"), None),
        item(SlideContentType::Image, Some("1.png"), Some(Rect { x: 1, y: 1, width: 5, height: 5 })),
        item(SlideContentType::Image, Some("2.png"), Some(Rect { x: 9, y: 1, width: 5, height: 5 })),
        item(SlideContentType::Paragraph, None, None),
        item(SlideContentType::Image, None, Some(Rect { x: 19, y: 1, width: 5, height: 5 })),
    ];
    let mut slides = fresh();
    let requests = slides.init(
        "deck.json".to_string(),
        DeckSource::Parsed(deck(vec![slide(None, content)])),
    );
    assert_eq!(
        requests,
        Ok(vec![
            ImageRequest { item: 1, path: "1.png".to_string() },
            ImageRequest { item: 2, path: "2.png".to_string() },
            ImageRequest { item: 4, path: String::new() },
        ])
    );
    assert_eq!(slides.store_images(vec![picture(), picture(), picture()]), Ok(()));
    assert_eq!(slides.image_count(), 3);
    assert!(slides.is_cache_current());
    let ordinals: Vec<usize> = slides
        .draw(screen())
        .unwrap()
        .iter()
        .filter_map(|call| match call.widget {
            ReturnSlideWidget::Image(ordinal) => Some(ordinal),
            _ => None,
        })
        .collect();
    assert_eq!(ordinals, vec![0, 1, 2]);
    assert_eq!(slides.image_item(0), 1);
    assert_eq!(slides.image_item(1), 2);
    assert_eq!(slides.image_item(2), 4);
    slides.get_image(0);
    slides.get_image(1);
    slides.get_image(2);
}

#[test]
fn missing_picture_is_an_error_and_leaves_the_cache_empty() {
    let content = vec![
        item(SlideContentType::Image, Some("1.png"), Some(Rect { x: 1, y: 1, width: 5, height: 5 })),
        item(SlideContentType::Line, None, None),
        item(SlideContentType::Image, Some("2.png"), Some(Rect { x: 9, y: 1, width: 5, height: 5 })),
        item(SlideContentType::Image, Some("3.png"), Some(Rect { x: 19, y: 1, width: 5, height: 5 })),
    ];
    let mut slides = fresh();
    assert!(slides
        .init("deck.json".to_string(), DeckSource::Parsed(deck(vec![slide(None, content)])))
        .is_ok());
    assert_eq!(
        slides.store_images(vec![picture(), None, None]),
        Err(ImageResolutionError { item: 2 })
    );
    assert_eq!(slides.image_count(), 0);
    assert!(!slides.can_draw(screen()));
    assert_eq!(
        slides.store_images(vec![picture(), picture(), None]),
        Err(ImageResolutionError { item: 3 })
    );
    assert_eq!(slides.image_count(), 0);
    assert_eq!(
        slides.store_images(vec![None, picture(), picture()]),
        Err(ImageResolutionError { item: 0 })
    );
    assert_eq!(slides.store_images(vec![picture(), picture(), picture()]), Ok(()));
    assert_eq!(slides.image_count(), 3);
    assert!(slides.can_draw(screen()));
}

#[test]
fn storing_again_replaces_the_cache() {
    let content = vec![item(
        SlideContentType::Image,
        Some("1.png"),
        Some(Rect { x: 1, y: 1, width: 5, height: 5 }),
    )];
    let mut slides = fresh();
    assert!(slides
        .init("deck.json".to_string(), DeckSource::Parsed(deck(vec![slide(None, content)])))
        .is_ok());
    assert_eq!(slides.store_images(vec![picture()]), Ok(()));
    assert_eq!(slides.store_images(vec![picture()]), Ok(()));
    assert_eq!(slides.image_count(), 1);
    assert_eq!(slides.store_images(vec![None]), Err(ImageResolutionError { item: 0 }));
    assert_eq!(slides.image_count(), 0);
}

#[test]
fn reload_empties_the_cache() {
    let content = vec![item(
        SlideContentType::Image,
        Some("1.png"),
        Some(Rect { x: 1, y: 1, width: 5, height: 5 }),
    )];
    let parsed = deck(vec![slide(None, content)]);
    let mut slides = fresh();
    assert!(slides.init("deck.json".to_string(), DeckSource::Parsed(parsed.clone())).is_ok());
    assert_eq!(slides.store_images(vec![picture()]), Ok(()));
    assert_eq!(
        slides.get_json_slides(DeckSource::Parsed(parsed)),
        Ok(vec![ImageRequest { item: 0, path: "1.png".to_string() }])
    );
    assert_eq!(slides.image_count(), 0);
    assert!(!slides.is_cache_current());
}

#[test]
fn code_on_a_slide_is_highlighted() {
    let code = "fn main() {\n    println!(\"hi\");\n}";
    let slides = shown(deck(vec![slide(
        Some("code"),
        vec![item(SlideContentType::CodeHighlight, Some(code), None)],
    )]));
    let calls = slides.draw(screen()).unwrap();
    assert_eq!(calls.len(), 3);
    assert_eq!(calls[2].area, Rect { x: 10, y: 5, width: 80, height: 40 });
    let ReturnSlideWidget::CodeHighlight(lines) = &calls[2].widget else {
        panic!("the third instruction paints the code");
    };
    let texts: Vec<&str> = lines.iter().map(|line| line.text.as_str()).collect();
    assert_eq!(texts, vec!["fn main() {", "    println!(\"hi\");", "}"]);
    for line in lines {
        let shown: String = line.spans.iter().map(|span| span.text.as_str()).collect();
        assert_eq!(shown, line.text);
        assert!(line.spans.iter().all(|span| span.fg.is_some()));
    }
    assert_eq!(slides.draw(screen()), Ok(calls));
}

#[test]
fn box_size_of_the_deck_places_the_content() {
    let mut parsed = deck(vec![slide(None, vec![item(SlideContentType::Paragraph, None, None)])]);
    parsed.box_size = BoxSizeJson { percent_width: 50, percent_height: 100 };
    let slides = shown(parsed);
    assert_eq!(slides.content_rect(screen()), Rect { x: 25, y: 0, width: 50, height: 50 });
    let calls = slides.draw(screen()).unwrap();
    assert_eq!(calls[0].area, Rect { x: 25, y: 2, width: 50, height: 50 });
    assert_eq!(calls[1].area, Rect { x: 25, y: 0, width: 50, height: 50 });
    assert_eq!(calls[2].area, Rect { x: 25, y: 0, width: 50, height: 50 });
}

#[test]
fn title_and_frame_for_each_slide() {
    let mut slides = shown(deck(vec![
        slide(Some("first"), Vec::new()),
        slide(None, Vec::new()),
        slide(Some(""), Vec::new()),
    ]));
    let titles = ["first", "__title__", ""];
    for (index, title) in titles.iter().enumerate() {
        assert_eq!(slides.slide_index(), index);
        let calls = slides.draw(screen()).unwrap();
        assert_eq!(calls[0].widget, ReturnSlideWidget::BigText(title.to_string()));
        assert_eq!(
            calls[1].widget,
            ReturnSlideWidget::Block(Border::Page { current: index + 1, total: 3 })
        );
        assert_eq!(
            slides.make_content_block(screen()).widget,
            ReturnSlideWidget::Block(Border::Page { current: index + 1, total: 3 })
        );
        slides.next_slide();
    }
}

#[test]
fn title_of_a_slide() {
    assert_eq!(
        Slides::make_title(&slide(Some("Intro"), Vec::new())),
        ReturnSlideWidget::BigText("Intro".to_string())
    );
    assert_eq!(
        Slides::make_title(&slide(None, Vec::new())),
        ReturnSlideWidget::BigText("__title__".to_string())
    );
}

#[test]
fn viewport_outside_the_coordinates_cannot_be_drawn() {
    let slides = shown(numbered(1));
    assert!(!slides.can_draw(Rect { x: 1, y: 0, width: u16::MAX, height: 10 }));
    assert!(!slides.can_draw(Rect { x: 0, y: 65530, width: 10, height: 10 }));
    assert!(!slides.can_draw(Rect { x: 0, y: 65534, width: 10, height: 0 }));
    assert!(slides.can_draw(Rect { x: 0, y: 65533, width: 10, height: 0 }));
    assert!(slides.can_draw(Rect { x: 0, y: 0, width: u16::MAX, height: u16::MAX }));
    assert!(slides.can_draw(Rect { x: 0, y: 0, width: 0, height: 0 }));
}

#[test]
fn slide_that_does_not_fit_cannot_be_drawn() {
    let far = item(
        SlideContentType::Line,
        None,
        Some(Rect { x: 65530, y: 0, width: 1, height: 1 }),
    );
    let slides = shown(deck(vec![slide(None, vec![far])]));
    assert!(!slides.can_draw(screen()));
    assert!(slides.can_draw(Rect { x: 0, y: 0, width: 10, height: 10 }));
}
