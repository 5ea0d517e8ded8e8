use tachograph_parser::certs::{
    after_download_attempt, cert_file_path, cert_list_url, certs_from_links, certs_from_page,
    gen1_cert_config, gen2_cert_config, number_repeated_names, root_cert_address, root_cert_dir,
    Cert, DownloadStep, MAX_DOWNLOAD_ATTEMPTS,
};

fn strings(v: &[&str]) -> Vec<String> {
    v.iter().map(|s| s.to_string()).collect()
}

#[test]
fn repeated_names_are_numbered() {
    let names = strings(&["A.bin", "B.bin", "A.bin", "B.bin", "C.bin"]);
    assert_eq!(
        number_repeated_names(names),
        strings(&["A.bin", "B.bin", "A_2.bin", "B_2.bin", "C.bin"])
    );
}

#[test]
fn each_further_copy_takes_the_next_number() {
    let names = strings(&["A.bin", "A.bin", "A.bin"]);
    assert_eq!(number_repeated_names(names), strings(&["A.bin", "A_2.bin", "A_3.bin"]));
}

#[test]
fn numbering_takes_every_bin_out_of_the_name() {
    let names = strings(&["x.bin.bin", "x.bin.bin"]);
    assert_eq!(number_repeated_names(names), strings(&["x.bin.bin", "x_2.bin"]));
}

#[test]
fn numbers_above_nine_are_written_in_decimal() {
    let names = vec!["N.bin".to_string(); 12];
    let out = number_repeated_names(names);
    assert_eq!(out[0], "N.bin");
    assert_eq!(out[1], "N_2.bin");
    assert_eq!(out[9], "N_10.bin");
    assert_eq!(out[11], "N_12.bin");
}

#[test]
fn links_become_certificates() {
    let links = vec![
        (" GB_1 ".to_string(), Some("certs/a.bin".to_string())),
        ("GB_1\n".to_string(), Some("certs/b.bin".to_string())),
        ("FR_7".to_string(), Some("certs/c.bin".to_string())),
    ];
    let certs = certs_from_links("https://host", &links).unwrap();
    let got: Vec<(String, String)> = certs.into_iter().map(|c| (c.name, c.url)).collect();
    assert_eq!(
        got,
        vec![
            ("GB_1.bin".to_string(), "https://host/certs/a.bin".to_string()),
            ("GB_1_2.bin".to_string(), "https://host/certs/b.bin".to_string()),
            ("FR_7.bin".to_string(), "https://host/certs/c.bin".to_string()),
        ]
    );
}

#[test]
fn a_link_without_address_gives_nothing() {
    let links = vec![
        ("GB_1".to_string(), Some("a".to_string())),
        ("GB_2".to_string(), None),
    ];
    assert!(certs_from_links("https://host", &links).is_none());
}

#[test]
fn the_listing_page_is_read_for_download_links() {
    let page = "<html><body><table>\
        <tr><td><a title='Download certificate file' href='pk/1.bin'> EC_PK_1 </a></td></tr>\
        <tr><td><a href='other.html'>Other</a></td></tr>\
        <tr><td><a title=\"Download certificate file\" href=\"pk/2.bin\">EC_<b>PK</b>_1</a></td></tr>\
        </table></body></html>";
    let certs = certs_from_page("https://dtc.example", page).unwrap();
    assert_eq!(certs.len(), 2);
    assert_eq!(certs[0].name, "EC_PK_1.bin");
    assert_eq!(certs[0].url, "https://dtc.example/pk/1.bin");
    assert_eq!(certs[1].name, "EC_PK_1_2.bin");
    assert_eq!(certs[1].url, "https://dtc.example/pk/2.bin");
}

#[test]
fn a_page_with_a_link_missing_its_address_gives_nothing() {
    let page = "<a title='Download certificate file'>EC_PK</a>";
    assert!(certs_from_page("https://dtc.example", page).is_none());
}

#[test]
fn a_page_without_links_gives_no_certificates() {
    let certs = certs_from_page("https://dtc.example", "<p>nothing</p>").unwrap();
    assert!(certs.is_empty());
}

#[test]
fn addresses_and_paths() {
    let c1 = gen1_cert_config();
    assert_eq!(
        cert_list_url(&c1),
        "https://dtc.jrc.ec.europa.eu/dtc_public_key_certificates_dt.php.html"
    );
    assert_eq!(root_cert_address(&c1), "https://dtc.jrc.ec.europa.eu/erca_of_doc/EC_PK.zip");
    assert_eq!(root_cert_dir(&c1), "certs/pks1/root");
    let c2 = gen2_cert_config();
    assert_eq!(
        cert_list_url(&c2),
        "https://dtc.jrc.ec.europa.eu/dtc_public_key_certificates_st.php.html"
    );
    assert_eq!(
        root_cert_address(&c2),
        "https://dtc.jrc.ec.europa.eu/ERCA_Gen2_Root_Certificate.zip"
    );
    assert_eq!(root_cert_dir(&c2), "certs/pks2/root");
    let cert = Cert { name: "A.bin".to_string(), url: String::new() };
    assert_eq!(cert_file_path(c2.output_dir, &cert), "certs/pks2/A.bin");
}

#[test]
fn failed_downloads_are_tried_three_times() {
    assert_eq!(MAX_DOWNLOAD_ATTEMPTS, 3);
    assert_eq!(after_download_attempt(1, true), DownloadStep::Save);
    assert_eq!(after_download_attempt(1, false), DownloadStep::Retry { attempt: 2 });
    assert_eq!(after_download_attempt(2, false), DownloadStep::Retry { attempt: 3 });
    assert_eq!(after_download_attempt(3, false), DownloadStep::GiveUp);
    assert_eq!(after_download_attempt(3, true), DownloadStep::Save);
}

#[test]
fn distinct_names_are_kept() {
    let names = strings(&["B.bin", "A.bin", "A_2.bin", "C"]);
    assert_eq!(number_repeated_names(names.clone()), names);
    assert_eq!(number_repeated_names(Vec::new()), Vec::<String>::new());
}
