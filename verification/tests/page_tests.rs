use listing_notifier::page::{
    extract, CANDIDATES_ATTRIBUTE, CONTAINER_SELECTOR, ID_ATTRIBUTE, IMAGE_SELECTOR,
    MAX_PAGE_BYTES, SOURCE_ATTRIBUTE, TARGET_ATTRIBUTE, TITLE_LINK_SELECTOR,
};

const PAGE: &str = r#"<!DOCTYPE html>
<html><head><title>Zu verschenken</title></head>
<body>
<ul>
 <li><article class="aditem" data-adid="111" data-href="/s-anzeige/sofa/111">
   <div class="aditem-image"><a href="/s-anzeige/sofa/111">
     <img src="https://img.example/111/small.jpg?rule=$_2.JPG"
          srcset="https://img.example/111/small.jpg?rule=$_2.JPG 1x, https://img.example/111/big.jpg?rule=$_35.JPG 2x">
   </a></div>
   <div class="aditem-main"><h2><a class="ellipsis" href="/s-anzeige/sofa/111">
        Sofa <b>grau</b> zu verschenken
   </a></h2></div>
 </article></li>
 <li><article class="aditem" data-adid="222">
   <div class="aditem-image"><img src="https://img.example/222/only.jpg"></div>
   <h2><a class="ellipsis" href="/s-anzeige/tisch/222">Tisch</a></h2>
 </article></li>
 <li><article class="aditem" data-adid="333">
   <h2><a class="ellipsis" href="/s-anzeige/stuhl/333">  Stuhl &amp; Hocker </a></h2>
 </article></li>
 <li><article class="aditem">
   <h2><a class="ellipsis" href="/s-anzeige/ohne/444">Ohne Kennung</a></h2>
 </article></li>
 <li><article class="aditem" data-adid="555">
   <h2><a class="ellipsis" href="/pro/haendler">Werbung</a></h2>
 </article></li>
 <li><article class="aditem" data-adid="666">
   <h2><a class="other" href="/s-anzeige/x/666">Kein Titel-Link</a></h2>
 </article></li>
 <li><article class="aditem" data-adid="777">
   <h2><a class="ellipsis">Ohne Ziel</a></h2>
 </article></li>
 <li><article class="other" data-adid="888">
   <h2><a class="ellipsis" href="/s-anzeige/y/888">Kein Container</a></h2>
 </article></li>
 <li><article class="aditem" data-adid="999">
   <h2><a class="ellipsis" href="/s-anzeige/lampe/999">Lampe</a>
       <a class="ellipsis" href="/s-anzeige/zweite/999">Zweiter Link</a></h2>
   <img src="https://img.example/999/outside.jpg">
 </article></li>
</ul>
</body></html>"#;

#[test]
fn selectors_and_attribute() {
    assert_eq!(CONTAINER_SELECTOR, "article.aditem");
    assert_eq!(TITLE_LINK_SELECTOR, "a.ellipsis");
    assert_eq!(IMAGE_SELECTOR, ".aditem-image img");
    assert_eq!(ID_ATTRIBUTE, "data-adid");
}

#[test]
fn attribute_names() {
    assert_eq!(TARGET_ATTRIBUTE, "href");
    assert_eq!(CANDIDATES_ATTRIBUTE, "srcset");
    assert_eq!(SOURCE_ATTRIBUTE, "src");
}

#[test]
fn page_limit_leaves_room_for_three_bytes_per_byte() {
    assert_eq!(MAX_PAGE_BYTES, 715_827_882);
    assert!((MAX_PAGE_BYTES as u64) * 3 <= 1u64 << 31);
    assert!((MAX_PAGE_BYTES as u64 + 1) * 3 > 1u64 << 31);
}

#[test]
fn extract_does_not_parse_an_over_long_page() {
    let article = "<article class=aditem data-adid=1><a class=ellipsis href=/s-anzeige/a/1>Eins</a></article>";
    assert_eq!(extract(article).len(), 1);
    let mut bytes: Vec<u8> = Vec::with_capacity(MAX_PAGE_BYTES + 1);
    bytes.resize(MAX_PAGE_BYTES + 1 - article.len(), b' ');
    bytes.extend_from_slice(article.as_bytes());
    let page = String::from_utf8(bytes).expect("text");
    assert_eq!(page.len(), MAX_PAGE_BYTES + 1);
    assert!(extract(&page).is_empty());
}

#[test]
fn extract_finds_the_postings_in_document_order() {
    let records = extract(PAGE);
    let ids: Vec<&str> = records.iter().map(|r| r.id.as_str()).collect();
    assert_eq!(ids, vec!["111", "222", "333", "999"]);
}

#[test]
fn extract_reads_title_link_and_picture() {
    let records = extract(PAGE);
    assert_eq!(records[0].title, "Sofa grau zu verschenken");
    assert_eq!(records[0].link, "https://www.kleinanzeigen.de/s-anzeige/sofa/111");
    assert_eq!(
        records[0].image_url,
        Some("https://img.example/111/big.jpg?rule=$_59.AUTO".to_string())
    );
    assert_eq!(records[1].title, "Tisch");
    assert_eq!(records[1].link, "https://www.kleinanzeigen.de/s-anzeige/tisch/222");
    assert_eq!(
        records[1].image_url,
        Some("https://img.example/222/only.jpg?rule=$_59.AUTO".to_string())
    );
}

#[test]
fn extract_decodes_entities_and_trims_the_title() {
    let records = extract(PAGE);
    assert_eq!(records[2].title, "Stuhl & Hocker");
    assert_eq!(records[2].image_url, None);
}

#[test]
fn extract_takes_the_first_title_link_and_ignores_pictures_outside_the_picture_box() {
    let records = extract(PAGE);
    assert_eq!(records[3].title, "Lampe");
    assert_eq!(records[3].link, "https://www.kleinanzeigen.de/s-anzeige/lampe/999");
    assert_eq!(records[3].image_url, None);
}

#[test]
fn extract_never_fails_on_malformed_input() {
    assert!(extract("").is_empty());
    assert!(extract("no markup at all").is_empty());
    assert!(extract("<html><body><p>nothing here</p></body></html>").is_empty());
    assert!(extract("<article class=\"aditem\" data-adid=").is_empty());
    assert!(extract("<<<>>>\u{0}\u{FFFD}").is_empty());
}

#[test]
fn extract_reads_unclosed_markup_as_far_as_it_goes() {
    let records =
        extract("<article class=aditem data-adid=1><a class=ellipsis href=/s-anzeige/a/1>Eins");
    assert_eq!(records.len(), 1);
    assert_eq!(records[0].id, "1");
    assert_eq!(records[0].title, "Eins");
}

#[test]
fn extract_twice_gives_the_same_records() {
    let first = extract(PAGE);
    let second = extract(PAGE);
    assert_eq!(first.len(), second.len());
    for (a, b) in first.iter().zip(second.iter()) {
        assert_eq!(a.id, b.id);
        assert_eq!(a.title, b.title);
        assert_eq!(a.link, b.link);
        assert_eq!(a.image_url, b.image_url);
    }
}
