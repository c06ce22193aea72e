use injesh::catalog::{image_file_url, is_current, newest, parse_index, Downloader, FetchStep, Image, UploadTime};
use injesh::error::Error;
use injesh::user::User;

const LINE: &str = "ubuntu;focal;amd64;default;20220227_07:42;/images/ubuntu/focal/amd64/default/20220227_07:42/";

#[test]
fn timestamp_parsing() {
    let entries = parse_index(LINE, "ubuntu", "focal", "amd64");
    assert_eq!(entries.len(), 1);
    assert_eq!(entries[0].time, UploadTime { year: 2022, month: 2, day: 27, hour: 7, minute: 42 });
    assert_eq!(entries[0].distribution, "ubuntu");
    assert_eq!(entries[0].version, "focal");
    assert_eq!(entries[0].arch, "amd64");
    assert_eq!(entries[0].path, "/images/ubuntu/focal/amd64/default/20220227_07:42/");
}

#[test]
fn index_filter_keeps_only_the_request() {
    let index = [
        LINE,
        "ubuntu;focal;arm64;default;20220227_07:42;/images/ubuntu/focal/arm64/default/20220227_07:42/",
        "ubuntu;jammy;amd64;default;20220227_07:42;/images/ubuntu/jammy/amd64/default/20220227_07:42/",
        "ubuntu;focal;amd64;cloud;20220227_07:42;/images/ubuntu/focal/amd64/cloud/20220227_07:42/",
        "ubuntu;focal;amd64;default;2022-02-28;/images/ubuntu/focal/amd64/default/2022-02-28/",
        "ubuntu;focal;amd64;default;20220228_07:42;/not/enough/slashes/",
        "",
        "debian;bullseye;amd64;default;20220227_05:24;/images/debian/bullseye/amd64/default/20220227_05:24/",
    ]
    .join("\n");
    let entries = parse_index(&index, "ubuntu", "focal", "amd64");
    assert_eq!(entries.len(), 1);
    assert_eq!(entries[0].path, "/images/ubuntu/focal/amd64/default/20220227_07:42/");
    assert_eq!(parse_index(&index, "alpine", "3.15", "amd64").len(), 0);
}

fn entries_at(stamps: &[&str]) -> String {
    stamps
        .iter()
        .map(|t| format!("ubuntu;focal;amd64;default;{t};/images/ubuntu/focal/amd64/default/{t}/"))
        .collect::<Vec<_>>()
        .join("\n")
}

#[test]
fn newest_across_two_dates() {
    let index = entries_at(&["20220227_07:42", "20220228_07:42", "20220228_07:43"]);
    let entries = parse_index(&index, "ubuntu", "focal", "amd64");
    assert_eq!(entries.len(), 3);
    assert_eq!(newest(&entries), Some(2));
    let d = Downloader::new(&index, "ubuntu", "focal", "amd64");
    assert_eq!(d.newest_url().unwrap(), "/images/ubuntu/focal/amd64/default/20220228_07:43/");
}

#[test]
fn newest_is_order_independent_and_last_on_ties() {
    let index = entries_at(&["20220301_00:00", "20211231_23:59", "20220301_00:00", "20220101_12:00"]);
    let entries = parse_index(&index, "ubuntu", "focal", "amd64");
    assert_eq!(newest(&entries), Some(2));
    let d = Downloader::new(&index, "ubuntu", "focal", "amd64");
    assert_eq!(d.newest_url().unwrap(), "/images/ubuntu/focal/amd64/default/20220301_00:00/");
    assert_eq!(newest(&[].into()), None);
    let d = Downloader::new("", "ubuntu", "focal", "amd64");
    assert_eq!(d.specific_images_meta().len(), 0);
    assert_eq!(d.newest_url(), Err(Error::ImageMetaNotFound));
}

#[test]
fn signature_comparison() {
    assert!(is_current(Some("sig"), "sig"));
    assert!(!is_current(Some("sig"), "other"));
    assert!(!is_current(None, "sig"));
}

#[test]
fn image_cache_layout() {
    let user = User::new("/home/runner/.injesh", "x86_64").unwrap();
    let image = Image::new("alpine", "3.15", &user);
    assert_eq!(image.distribution(), "alpine");
    assert_eq!(image.version(), "3.15");
    assert_eq!(image.image_base_path(), "/home/runner/.injesh/images/alpine/3.15");
    assert_eq!(image.rootfs_path(), "/home/runner/.injesh/images/alpine/3.15/rootfs");
    assert_eq!(image.rootfs_hash_path(), "/home/runner/.injesh/images/alpine/3.15/rootfs.tar.xz.asc");
    assert_eq!(image.downloaded_rootfs_path(), "/home/runner/.injesh/images/alpine/3.15/rootfs.tar.xz");
    assert_eq!(image.search_image(true), Ok(()));
    assert_eq!(image.search_image(false), Err(Error::ImageNotFound));
    assert!(image.check_rootfs_newest(Some("a"), "a"));
    assert!(!image.check_rootfs_newest(None, "a"));
}

#[test]
fn image_urls() {
    assert_eq!(
        image_file_url("/images/alpine/3.15/amd64/default/20220227_13:00/", "rootfs.tar.xz"),
        "https://us.lxd.images.canonical.com//images/alpine/3.15/amd64/default/20220227_13:00//rootfs.tar.xz"
    );
}

#[test]
fn fetch_steps() {
    let user = User::new("/h/.injesh", "x86_64").unwrap();
    let image = Image::new("alpine", "3.15", &user);
    let path = "/images/alpine/3.15/amd64/default/20220227_13:00/";
    assert!(image.download_image(path, Some("sig"), "sig", true).is_empty());
    let steps = image.download_image(path, Some("old"), "sig", true);
    assert_eq!(steps.len(), 6);
    assert!(matches!(&steps[0], FetchStep::RemoveTree(p) if p == "/h/.injesh/images/alpine/3.15/rootfs"));
    assert!(matches!(&steps[2], FetchStep::Download { url, to }
        if url == "https://us.lxd.images.canonical.com//images/alpine/3.15/amd64/default/20220227_13:00//rootfs.tar.xz"
        && to == "/h/.injesh/images/alpine/3.15/rootfs.tar.xz"));
    assert!(matches!(&steps[5], FetchStep::RemoveFile(p) if p == "/h/.injesh/images/alpine/3.15/rootfs.tar.xz"));
    let fresh = image.download_image(path, None, "sig", false);
    assert_eq!(fresh.len(), 5);
    assert!(matches!(&fresh[0], FetchStep::CreateDir(p) if p == "/h/.injesh/images/alpine/3.15/rootfs"));
    assert!(matches!(&fresh[3], FetchStep::Unpack { archive, into }
        if archive == "/h/.injesh/images/alpine/3.15/rootfs.tar.xz" && into == "/h/.injesh/images/alpine/3.15/rootfs"));
}
