use gimper_bot::assets::{gimper, NamedAsset, Resources};

#[test]
fn resources_name_the_picture() {
    let res = Resources::new(vec![0xff, 0xd8, 0xff, 0xe0]);
    assert_eq!(res.gimper.filename, "gimper.jpg");
    assert_eq!(res.gimper.data, vec![0xff, 0xd8, 0xff, 0xe0]);
}

#[test]
fn gimper_returns_loaded_asset() {
    let bytes: Vec<u8> = (0..1000u32).map(|i| (i * 7 % 251) as u8).collect();
    let res = Resources::new(bytes.clone());
    let a = gimper(&res);
    assert_eq!(a.data, bytes);
    assert_eq!(a.filename, "gimper.jpg");
}

#[test]
fn gimper_repeated_calls_agree() {
    let res = Resources { gimper: NamedAsset::new(vec![1, 2, 3], String::from("pic.jpg")) };
    let a = gimper(&res);
    let b = gimper(&res);
    assert_eq!(a.data, b.data);
    assert_eq!(a.filename, b.filename);
    assert_eq!(b.filename, "pic.jpg");
    assert_eq!(res.gimper.data, vec![1, 2, 3]);
}

#[test]
fn gimper_empty_asset() {
    let res = Resources::new(Vec::new());
    assert!(gimper(&res).data.is_empty());
}
