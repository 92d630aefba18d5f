use endless_ssh_rs::line_from_draws;
use endless_ssh_rs::randline;

#[test]
fn test_randline() {
    // given
    // the length draw comes back as the requested maximum length,
    // and every body byte comes back as 97, or 'a'
    let max_len = 50;
    let draws = vec![b'a'; max_len - 2];

    let randline = line_from_draws(max_len, &draws);

    // then
    // did we get a line our length?
    assert_eq!(randline.len(), max_len);

    // since the draws are fixed, we can make sure that the line is as we expect it is
    assert_eq!(randline[..(max_len - 2)], vec![b'a'; max_len - 2]);
}

#[test]
fn test_randline_carriage_return_line_feed() {
    // given
    // the length draw comes back as the requested maximum length
    let max_len = 50;
    let draws = vec![b'a'; max_len - 2];

    let randline = line_from_draws(max_len, &draws);

    // then
    // did we get a line our length?
    assert_eq!(randline.len(), max_len);

    // do we end in a CRLF linebreak?
    assert_eq!(randline[(max_len - 2)..], [b'\r', b'\n']);
}

#[test]
fn test_randline_no_ssh_prefix() {
    // given
    // the length draw comes back as the requested maximum length
    let fake_randoms = [b'S', b'S', b'H', b'-'];

    let max_len = 6;
    let randline = line_from_draws(max_len, &fake_randoms.to_vec());

    assert_eq!(randline.len(), max_len);

    let xsh = [b'X', b'S', b'H', b'-'];
    assert_eq!(randline[..xsh.len()], xsh);
}

#[test]
fn randline_respects_bounds() {
    for maxlen in [3usize, 4, 5, 10, 32, 255] {
        for _ in 0..50 {
            let line = randline(maxlen);
            assert!(line.len() >= 3);
            assert!(line.len() <= maxlen);
            assert_eq!(line[line.len() - 2], b'\r');
            assert_eq!(line[line.len() - 1], b'\n');
            for &b in &line[..line.len() - 2] {
                assert!((32..=126).contains(&b));
            }
            assert!(!line.starts_with(b"SSH-"));
        }
    }
}

#[test]
fn randline_minimum_length_is_one_byte_and_terminator() {
    for _ in 0..50 {
        let line = randline(3);
        assert_eq!(line.len(), 3);
        assert!((32..=126).contains(&line[0]));
        assert_eq!(line[1], b'\r');
        assert_eq!(line[2], b'\n');
    }
}

#[test]
fn line_from_draws_keeps_ordinary_draws() {
    let line = line_from_draws(6, &vec![b'a', b'b', b'c', b'd']);
    assert_eq!(line, vec![b'a', b'b', b'c', b'd', b'\r', b'\n']);
}

#[test]
fn line_from_draws_short_lines_cannot_spell_ssh() {
    // a three-byte line has no room for a prefix; the body byte stays
    let line = line_from_draws(3, &vec![b'S']);
    assert_eq!(line, vec![b'S', b'\r', b'\n']);
}
