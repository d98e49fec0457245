use puzzle_formats::urls::IntoUrl;
use puzzle_formats::urls::Url;

#[test]
fn convert() {
    let url_str: &str = "https://google.com/";
    let url_string: String = url_str.to_string();
    let url = Url::parse(url_str).unwrap();

    assert_eq!(url, url_str.into_url().unwrap(), "Converting &str to Url");
    assert_eq!(
        url,
        url_string.clone().into_url().unwrap(),
        "Converting String to Url"
    );
    assert_eq!(
        url,
        (&url_string).into_url().unwrap(),
        "Converting &String to Url"
    );
    assert_eq!(url, url.clone().into_url().unwrap(), "Converting Url to Url");

    assert_eq!(
        url_str,
        IntoUrl::as_str(&url_str),
        "Converting &str to &str"
    );
    assert_eq!(
        url_str,
        IntoUrl::as_str(&url_string),
        "Converting String to &str"
    );
    assert_eq!(
        url_str,
        IntoUrl::as_str(&&url_string),
        "Converting &String to &str"
    );
    assert_eq!(url_str, IntoUrl::as_str(&url), "Converting Url to &str");
}
