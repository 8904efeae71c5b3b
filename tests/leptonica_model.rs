use tesseract_wrap::leptonica::{Box, Boxes, FileFormat, ImageError, Pix};

#[test]
fn file_format_codes_follow_leptonica() {
    assert_eq!(FileFormat::Unknown.to_int(), 0);
    assert_eq!(FileFormat::Bmp.to_int(), 1);
    assert_eq!(FileFormat::JfifJpeg.to_int(), 2);
    assert_eq!(FileFormat::Png.to_int(), 3);
    assert_eq!(FileFormat::Tiff.to_int(), 4);
    assert_eq!(FileFormat::TiffPackbits.to_int(), 5);
    assert_eq!(FileFormat::TiffRle.to_int(), 6);
    assert_eq!(FileFormat::TiffG3.to_int(), 7);
    assert_eq!(FileFormat::TiffG4.to_int(), 8);
    assert_eq!(FileFormat::TiffLzw.to_int(), 9);
    assert_eq!(FileFormat::TiffZip.to_int(), 10);
    assert_eq!(FileFormat::Pnm.to_int(), 11);
    assert_eq!(FileFormat::Ps.to_int(), 12);
    assert_eq!(FileFormat::Gif.to_int(), 13);
    assert_eq!(FileFormat::Jp2.to_int(), 14);
    assert_eq!(FileFormat::Webp.to_int(), 15);
    assert_eq!(FileFormat::Lpdf.to_int(), 16);
    assert_eq!(FileFormat::TiffJpeg.to_int(), 17);
    assert_eq!(FileFormat::Default.to_int(), 18);
    assert_eq!(FileFormat::Spix.to_int(), 19);
}

#[test]
fn box_reads_back_its_coordinates() {
    let b = Box::new(10, 20, 30, 40);
    assert_eq!((b.x(), b.y(), b.w(), b.h()), (10, 20, 30, 40));
    let c = Box::new(-5, -7, 1, 1);
    assert_eq!((c.x(), c.y(), c.w(), c.h()), (-5, -7, 1, 1));
    let d = Box::new(i32::MIN, i32::MAX, i32::MAX, i32::MAX);
    assert_eq!((d.x(), d.y(), d.w(), d.h()), (i32::MIN, i32::MAX, i32::MAX, i32::MAX));
}

fn three_boxes() -> Boxes {
    Boxes::from_vec(vec![Box::new(0, 0, 5, 6), Box::new(1, 2, 3, 4), Box::new(7, 8, 9, 10)])
}

#[test]
fn boxes_len_and_get() {
    let b = three_boxes();
    assert_eq!(b.len(), 3);
    let second = b.get(1);
    assert_eq!((second.x(), second.y(), second.w(), second.h()), (1, 2, 3, 4));
    drop(second);
    assert_eq!(b.get(1), Box::new(1, 2, 3, 4));
}

#[test]
fn consuming_traversal_yields_each_slot_in_order() {
    let mut it = three_boxes().into_iter();
    assert_eq!(it.next(), Some(Box::new(0, 0, 5, 6)));
    assert_eq!(it.next(), Some(Box::new(1, 2, 3, 4)));
    assert_eq!(it.next(), Some(Box::new(7, 8, 9, 10)));
    assert_eq!(it.next(), None);
    assert_eq!(it.next(), None);
}

#[test]
fn borrowing_traversal_matches_consuming_one() {
    let b = three_boxes();
    let mut borrowed = Vec::new();
    let mut it = b.iter();
    while let Some(x) = it.next() {
        borrowed.push((x.x(), x.y(), x.w(), x.h()));
    }
    assert_eq!(b.len(), 3);
    let mut owned = Vec::new();
    let mut it = b.into_iter();
    while let Some(x) = it.next() {
        owned.push((x.x(), x.y(), x.w(), x.h()));
    }
    assert_eq!(borrowed.len(), 3);
    assert_eq!(borrowed, owned);
    assert_eq!(owned, vec![(0, 0, 5, 6), (1, 2, 3, 4), (7, 8, 9, 10)]);
}

#[test]
fn empty_collection_yields_nothing() {
    let b = Boxes::from_vec(Vec::new());
    assert_eq!(b.len(), 0);
    assert_eq!(b.iter().next(), None);
    assert_eq!(b.into_iter().next(), None);
}

#[test]
fn missing_image_is_resource_unavailable() {
    assert!(matches!(Pix::from_decoded(None), Err(ImageError::ResourceUnavailable)));
}

#[test]
fn decoded_image_keeps_its_size() {
    let p = Pix::from_decoded(Some((100, 50))).unwrap();
    assert_eq!((p.w(), p.h()), (100, 50));
}

#[test]
fn write_outcome_follows_status() {
    assert_eq!(Pix::write_outcome(0), Ok(()));
    assert_eq!(Pix::write_outcome(1), Err(ImageError::WriteFailure));
    assert_eq!(Pix::write_outcome(-1), Err(ImageError::WriteFailure));
}

#[test]
fn clip_inside_has_rectangle_size() {
    let p = Pix::new(100, 50);
    let c = p.clip(&Box::new(10, 5, 30, 20));
    assert_eq!((c.w(), c.h()), (30, 20));
    let whole = p.clip(&Box::new(0, 0, 100, 50));
    assert_eq!((whole.w(), whole.h()), (100, 50));
}

#[test]
fn clip_across_edges_is_cut_to_image() {
    let p = Pix::new(100, 50);
    let c = p.clip(&Box::new(-10, 40, 30, 20));
    assert_eq!((c.w(), c.h()), (20, 10));
    let d = p.clip(&Box::new(90, -100, i32::MAX, i32::MAX));
    assert_eq!((d.w(), d.h()), (10, 50));
}
