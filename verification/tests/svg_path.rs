use mandala::svg_path::{extract_path_str_from_svg_str, first_path_data, ParseError};

#[test]
fn path_data_is_the_d_attribute_of_the_first_tag_that_has_one() {
    let svg = "<?xml version=\"1.0\"?>\n<!-- a petal -->\n<svg width=\"10\" height=\"10\">\n  <g id=\"layer\">\n    <path style=\"fill:none\" d=\"M 0 0 L 10 0 L 10 10 z\" id=\"first\"/>\n    <path d=\"M 1 1\"/>\n  </g>\n</svg>";
    assert_eq!(
        extract_path_str_from_svg_str(svg),
        Ok(String::from("M 0 0 L 10 0 L 10 10 z"))
    );
}

#[test]
fn path_data_may_stand_on_any_tag() {
    assert_eq!(
        extract_path_str_from_svg_str("<svg><circle r='3'/><shape d='m 1,2 3,4'></shape></svg>"),
        Ok(String::from("m 1,2 3,4"))
    );
    assert_eq!(
        extract_path_str_from_svg_str("<path d=\"\"/><path d=\"M 1 1\"/>"),
        Ok(String::new())
    );
}

#[test]
fn document_without_path_data_is_refused() {
    assert_eq!(
        extract_path_str_from_svg_str("<svg><circle r=\"3\"/><path id=\"d\"/></svg>"),
        Err(ParseError)
    );
    assert_eq!(extract_path_str_from_svg_str(""), Err(ParseError));
    assert_eq!(extract_path_str_from_svg_str("d=\"M 0 0\""), Err(ParseError));
    assert_eq!(
        extract_path_str_from_svg_str("<!-- <path d=\"M 0 0\"/> -->"),
        Err(ParseError)
    );
}

#[test]
fn first_path_data_skips_what_is_absent() {
    assert_eq!(first_path_data(&vec![]), None);
    assert_eq!(first_path_data(&vec![None, None]), None);
    assert_eq!(
        first_path_data(&vec![
            None,
            Some(String::from("M 1 1")),
            None,
            Some(String::from("M 2 2"))
        ]),
        Some(String::from("M 1 1"))
    );
    assert_eq!(
        first_path_data(&vec![Some(String::new()), Some(String::from("M 2 2"))]),
        Some(String::new())
    );
}

/// A short text of the signs that markup is made of, drawn from `seed`.
fn scrambled(seed: &mut u64) -> String {
    let signs: Vec<char> = "<>/!-?=\"' \n\tad&;#x1\u{e9}\u{6a19}".chars().collect();
    let mut text = String::new();
    *seed = seed.wrapping_mul(6364136223846793005).wrapping_add(1442695040888963407);
    let length = (*seed >> 33) % 40;
    for _ in 0..length {
        *seed = seed.wrapping_mul(6364136223846793005).wrapping_add(1442695040888963407);
        text.push(signs[((*seed >> 33) % signs.len() as u64) as usize]);
    }
    text
}

#[test]
fn any_text_is_either_searched_or_refused() {
    let mut seed = 20_240_229;
    let mut found = 0;
    let mut refused = 0;
    for _ in 0..200_000 {
        match extract_path_str_from_svg_str(&scrambled(&mut seed)) {
            Ok(_) => found += 1,
            Err(ParseError) => refused += 1,
        }
    }
    assert_eq!(found + refused, 200_000);
    assert!(refused > 0);
}

#[test]
fn path_data_is_found_in_broken_markup() {
    assert_eq!(
        extract_path_str_from_svg_str("<<>><a d='1' !><b d=\"2\">"),
        Ok(String::from("2"))
    );
    assert_eq!(extract_path_str_from_svg_str("<a d='1'"), Err(ParseError));
    assert_eq!(
        extract_path_str_from_svg_str("<a d = 'x&amp;y' d='z'>"),
        Ok(String::from("z"))
    );
}
