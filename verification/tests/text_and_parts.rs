use rag_gateway::chunk::{split_stored_chunk, ChunkMetadata};
use rag_gateway::content::content_for_extension;
use rag_gateway::document::DocumentType;
use rag_gateway::send::{route_lowercase_channel, ChannelKind, ConfiguredChannels};
use rag_gateway::send::route_channel;
use rag_gateway::text::{chars_vec, contains_chars, find_chars, push_decimal, same_text};

#[test]
fn split_at_first_separator() {
    let (m, b) = split_stored_chunk("meta\n\n---\n\nbody\n\n---\n\nrest").unwrap();
    assert_eq!(m, "meta");
    assert_eq!(b, "body\n\n---\n\nrest");
    let (m, b) = split_stored_chunk("\n\n---\n\n").unwrap();
    assert_eq!((m.as_str(), b.as_str()), ("", ""));
    assert!(split_stored_chunk("meta\n\n--\n\nbody").is_none());
    let (m, b) = split_stored_chunk("é\n\n---\n\nü").unwrap();
    assert_eq!((m.as_str(), b.as_str()), ("é", "ü"));
}

#[test]
fn metadata_from_entries_keeps_strings() {
    let entries = vec![
        ("a".to_string(), Some("1".to_string())),
        ("b".to_string(), None),
        ("c".to_string(), Some("3".to_string())),
    ];
    let meta = ChunkMetadata::from_entries(&entries);
    assert_eq!(meta.get("a").unwrap(), "1");
    assert!(meta.get("b").is_none());
    assert_eq!(meta.get("c").unwrap(), "3");
    assert!(!meta.is_empty());
    let mut meta = ChunkMetadata::new();
    assert!(meta.is_empty());
    meta.insert("k".into(), "v1".into());
    meta.insert("k".into(), "v2".into());
    assert_eq!(meta.get("k").unwrap(), "v2");
}

#[test]
fn extension_rules() {
    assert_eq!(content_for_extension("markdown", "x".into(), None).ok().unwrap().1, DocumentType::Markdown);
    assert_eq!(content_for_extension("", "x".into(), Some(DocumentType::Html)).ok().unwrap().1, DocumentType::Text);
    assert_eq!(content_for_extension("MD", "x".into(), None).ok().unwrap().1, DocumentType::Text);
    assert!(content_for_extension("pdf", "x".into(), None).is_err());
    let (t, k) = content_for_extension("html", "<p>a &amp; b</p>".into(), Some(DocumentType::Markdown)).ok().unwrap();
    assert_eq!(k, DocumentType::Markdown);
    assert!(t.contains("a & b"));
}

#[test]
fn lowercase_routing() {
    let cfg = ConfiguredChannels { whatsapp: true, linq: false, nextcloud_talk: true, wati: true };
    assert!(matches!(route_lowercase_channel("whatsapp", &cfg), Ok(ChannelKind::WhatsApp)));
    assert_eq!(
        route_lowercase_channel("WhatsApp", &cfg).err().unwrap(),
        "Unknown channel 'WhatsApp'. Available: whatsapp, linq, nextcloud_talk, wati"
    );
    assert_eq!(route_lowercase_channel("linq", &cfg).err().unwrap(), "Linq channel not configured");
    let all = ConfiguredChannels { whatsapp: true, linq: true, nextcloud_talk: true, wati: true };
    assert_eq!(route_channel("ÄBC", &all).err().unwrap(), "Unknown channel 'äbc'. Available: whatsapp, linq, nextcloud_talk, wati");
}

#[test]
fn text_helpers() {
    let mut s = String::from("n=");
    push_decimal(&mut s, 0);
    push_decimal(&mut s, 1234567890);
    assert_eq!(s, "n=01234567890");
    let hay = chars_vec("abcabd");
    assert_eq!(find_chars(&hay, &chars_vec("abd")), Some(3));
    assert_eq!(find_chars(&hay, &chars_vec("abe")), None);
    assert_eq!(find_chars(&hay, &chars_vec("")), Some(0));
    assert!(contains_chars(&hay, &chars_vec("cab")));
    assert!(!contains_chars(&chars_vec("ab"), &chars_vec("abc")));
    assert!(same_text("x", "x"));
    assert!(!same_text("x", "X"));
}
