use gencam_gui::dialog::{rejection_notice, DialogIcon, DialogType, ModalDialog};
use gencam_gui::events::{Event, EventLog, Packet, PacketKind};
use gencam_gui::imaging::{
    byte_sum, latest_image_png, packet_png, refresh_image, rgb_fits_exec, serialized_image_png,
    trimmed_length, zeroed, ImageError,
};
use gencam_gui::msglog::{MessageLog, LOG_CAPACITY};
use gencam_gui::tabs::{last_word, route_tab, CameraRegistry, DockTabs, TabView};
use gencam_gui::text::decimal_string;
use gencam_gui::theme::Theme;

const PNG_SIG: [u8; 8] = [137, 80, 78, 71, 13, 10, 26, 10];

fn image_packet(w: u32, h: u32, data: Option<Vec<u8>>) -> Packet {
    Packet { kind: PacketKind::Image, packet_id: 0, x_dim: w, y_dim: h, data }
}

#[test]
fn dialog_titles() {
    assert_eq!(DialogType::Debug.as_str(), "DEBUG");
    assert_eq!(DialogType::Info.as_str(), "INFO");
    assert_eq!(DialogType::Warn.as_str(), "WARN");
    assert_eq!(DialogType::Error.as_str(), "ERROR");
}

#[test]
fn dialog_icons() {
    assert_eq!(DialogType::Debug.icon(), DialogIcon::Information);
    assert_eq!(DialogType::Info.icon(), DialogIcon::Information);
    assert_eq!(DialogType::Warn.icon(), DialogIcon::Warning);
    assert_eq!(DialogType::Error.icon(), DialogIcon::Error);
}

#[test]
fn modal_opens_once() {
    let mut m = ModalDialog::new();
    assert!(!m.is_active());
    assert!(m.request(DialogType::Warn, "disk low").is_none());
    assert!(m.is_active());
    assert_eq!(m.kind(), DialogType::Warn);
    assert_eq!(m.message(), "disk low");
    let notice = m.request(DialogType::Error, "second").unwrap();
    assert_eq!(
        notice,
        "A modal window is already active. The offending request was: [ERROR] second"
    );
    assert_eq!(m.kind(), DialogType::Warn);
    assert_eq!(m.message(), "disk low");
    m.close();
    assert!(!m.is_active());
    assert!(m.request(DialogType::Info, "again").is_none());
    assert_eq!(m.kind(), DialogType::Info);
}

#[test]
fn modal_show_keeps_request() {
    let mut m = ModalDialog::new();
    m.show();
    assert!(m.is_active());
    assert_eq!(m.kind(), DialogType::Debug);
    assert_eq!(m.message(), "");
}

#[test]
fn notice_text() {
    assert_eq!(
        rejection_notice(DialogType::Debug, ""),
        "A modal window is already active. The offending request was: [DEBUG] "
    );
}

#[test]
fn decimal_text() {
    assert_eq!(decimal_string(0), "0");
    assert_eq!(decimal_string(7), "7");
    assert_eq!(decimal_string(10), "10");
    assert_eq!(decimal_string(1203), "1203");
    assert_eq!(decimal_string(u64::MAX), "18446744073709551615");
}

#[test]
fn log_generated_messages() {
    let mut log = MessageLog::new();
    assert_eq!(log.len(), 0);
    log.push_generated();
    log.push_generated();
    let msgs = log.messages();
    assert_eq!(msgs.len(), 2);
    assert_eq!(
        msgs[0],
        "Hello! This is message #0. This is a long message because it contains a lot of data!"
    );
    assert_eq!(
        msgs[1],
        "Hello! This is message #1. This is a long message because it contains a lot of data!"
    );
}

#[test]
fn log_drops_oldest_when_full() {
    let mut log = MessageLog::new();
    for i in 0..(LOG_CAPACITY + 2) {
        log.push(format!("m{}", i));
    }
    assert_eq!(log.len(), LOG_CAPACITY);
    assert_eq!(log.get(0).unwrap(), "m2");
    assert_eq!(log.get(LOG_CAPACITY - 1).unwrap(), &format!("m{}", LOG_CAPACITY + 1));
    assert!(log.get(LOG_CAPACITY).is_none());
}

#[test]
fn routing_splits_images() {
    let mut log = EventLog::new();
    log.route(Event::Opened);
    log.route(Event::Packet(Packet::bare(PacketKind::Ack)));
    assert!(!log.take_new_image());
    log.route(Event::Packet(image_packet(1, 1, Some(vec![1, 2, 3]))));
    assert_eq!(log.events().len(), 2);
    assert_eq!(log.image_count(), 1);
    assert!(log.take_new_image());
    assert!(!log.take_new_image());
    assert_eq!(log.latest_image().unwrap().data, Some(vec![1, 2, 3]));
}

#[test]
fn routing_a_batch() {
    let mut log = EventLog::new();
    log.route_all(vec![
        Event::Message("hi".to_string()),
        Event::Packet(image_packet(1, 1, Some(vec![9, 9, 9]))),
        Event::Packet(Packet::bare(PacketKind::NAck)),
        Event::Packet(image_packet(2, 1, Some(vec![0; 6]))),
        Event::Closed,
    ]);
    assert_eq!(log.events().len(), 3);
    assert_eq!(log.image_count(), 2);
    assert_eq!(log.latest_image().unwrap().x_dim, 2);
    assert!(log.take_new_image());
}

#[test]
fn bare_packet_is_zero() {
    let p = Packet::bare(PacketKind::ImgReq);
    assert_eq!(p.kind, PacketKind::ImgReq);
    assert_eq!((p.packet_id, p.x_dim, p.y_dim), (0, 0, 0));
    assert!(p.data.is_none());
}

#[test]
fn rgb_size_rules() {
    assert!(rgb_fits_exec(1, 1, 3));
    assert!(!rgb_fits_exec(1, 1, 2));
    assert!(!rgb_fits_exec(0, 1, 3));
    assert!(!rgb_fits_exec(1, 0, 3));
    assert!(!rgb_fits_exec(65536, 1, 1 << 20));
    assert!(rgb_fits_exec(65535, 1, 65535 * 3));
}

#[test]
fn packet_png_errors() {
    assert_eq!(packet_png(&image_packet(1, 1, None)), Err(ImageError::MissingPixels));
    assert_eq!(packet_png(&image_packet(2, 2, Some(vec![0; 11]))), Err(ImageError::BadDimensions));
    assert_eq!(packet_png(&image_packet(0, 2, Some(vec![0; 12]))), Err(ImageError::BadDimensions));
}

#[test]
fn packet_png_round_trip() {
    let pixels = vec![255, 0, 0, 0, 255, 0, 0, 0, 255, 10, 20, 30];
    let png = packet_png(&image_packet(2, 2, Some(pixels.clone()))).unwrap();
    assert_eq!(&png[..8], &PNG_SIG);
    let back = image::load_from_memory(&png).unwrap().to_rgb8();
    assert_eq!(back.width(), 2);
    assert_eq!(back.height(), 2);
    assert_eq!(back.into_raw(), pixels);
}

#[test]
fn latest_png_uses_last_image() {
    let mut log = EventLog::new();
    assert!(latest_image_png(&log).is_none());
    log.route(Event::Packet(image_packet(1, 1, None)));
    log.route(Event::Packet(image_packet(1, 1, Some(vec![1, 2, 3]))));
    let png = latest_image_png(&log).unwrap().unwrap();
    let back = image::load_from_memory(&png).unwrap().to_rgb8();
    assert_eq!(back.into_raw(), vec![1, 2, 3]);
}

#[test]
fn refresh_only_on_new_image() {
    let mut log = EventLog::new();
    let mut img: Option<Vec<u8>> = None;
    assert_eq!(refresh_image(&mut log, &mut img), Ok(false));
    assert!(img.is_none());
    log.route(Event::Packet(image_packet(1, 1, Some(vec![5, 6, 7]))));
    assert_eq!(refresh_image(&mut log, &mut img), Ok(true));
    assert_eq!(&img.as_ref().unwrap()[..8], &PNG_SIG);
    let before = img.clone();
    assert_eq!(refresh_image(&mut log, &mut img), Ok(false));
    assert_eq!(img, before);
    log.route(Event::Packet(image_packet(3, 3, Some(vec![1]))));
    assert_eq!(refresh_image(&mut log, &mut img), Err(ImageError::BadDimensions));
    assert_eq!(img, before);
}

#[test]
fn trimming_zero_padding() {
    assert_eq!(trimmed_length(&[]), 0);
    assert_eq!(trimmed_length(&[0, 0]), 0);
    assert_eq!(trimmed_length(&[1, 0, 2, 0, 0]), 3);
    assert_eq!(trimmed_length(&[1, 2]), 2);
}

#[test]
fn serialized_image_errors() {
    assert_eq!(serialized_image_png(&[0xff, 0xfe, 0, 0]), Err(ImageError::NotText));
    assert_eq!(serialized_image_png(b"not json\0\0"), Err(ImageError::NotAnImage));
}

#[test]
fn serialized_image_decodes() {
    let img = refimage::ImageOwned::from_owned(vec![1u8, 2, 3, 4, 5, 6], 2, 1, refimage::ColorSpace::Rgb)
        .unwrap();
    let img = refimage::DynamicImageOwned::from(img);
    let img = refimage::GenericImageOwned::new(std::time::SystemTime::now(), img);
    let mut buf = serde_json::to_vec(&img).unwrap();
    buf.resize(buf.len() + 64, 0);
    let png = serialized_image_png(&buf).unwrap();
    assert_eq!(&png[..8], &PNG_SIG);
    let back = image::load_from_memory(&png).unwrap().to_rgb8();
    assert_eq!(back.into_raw(), vec![1, 2, 3, 4, 5, 6]);
}

#[test]
fn sums_and_zeroing() {
    assert_eq!(byte_sum(&[]), 0);
    assert_eq!(byte_sum(&[255, 255, 1]), 511);
    let z = zeroed(5);
    assert_eq!(z, vec![0u8; 5]);
    assert_eq!(zeroed(0).len(), 0);
}

#[test]
fn last_words() {
    assert_eq!(last_word("Device List"), Some("List"));
    assert_eq!(last_word("Example Camera #3 3  "), Some("3"));
    assert_eq!(last_word("single"), Some("single"));
    assert_eq!(last_word(""), None);
    assert_eq!(last_word(" \t\u{3000}"), None);
    assert_eq!(last_word("a\u{a0}b"), Some("b"));
}

#[test]
fn tab_routing() {
    assert_eq!(route_tab("Device List"), Some(TabView::DeviceList));
    assert_eq!(
        route_tab("Example Camera #2 2"),
        Some(TabView::CameraControls("2".to_string()))
    );
    assert_eq!(route_tab("   "), None);
}

#[test]
fn registry_and_tabs() {
    let mut reg = CameraRegistry::new();
    assert_eq!(reg.add_camera(), 1);
    assert_eq!(reg.add_camera(), 2);
    assert_eq!(reg.len(), 2);
    assert_eq!(reg.get(1).name, "Example Camera #2");
    assert_eq!(reg.find("1").unwrap().name, "Example Camera #1");
    assert!(reg.find("3").is_none());

    let mut tabs = DockTabs::new();
    assert_eq!(tabs.titles().clone(), vec!["Device List".to_string()]);
    tabs.sync(&reg);
    assert_eq!(
        tabs.titles().clone(),
        vec![
            "Device List".to_string(),
            "Example Camera #1 1".to_string(),
            "Example Camera #2 2".to_string()
        ]
    );
    tabs.sync(&reg);
    assert_eq!(tabs.titles().len(), 3);
    reg.add_camera();
    tabs.sync(&reg);
    assert_eq!(tabs.titles()[3], "Example Camera #3 3");
}

#[test]
fn theme_toggle() {
    let t = Theme::initial();
    assert_eq!(t, Theme::Light);
    assert!(!t.is_dark());
    assert_eq!(t.switch_label(), "Switch to Dark Mode");
    let d = t.toggled();
    assert!(d.is_dark());
    assert_eq!(d.switch_label(), "Switch to Light Mode");
    assert_eq!(d.toggled(), Theme::Light);
}
