use spectralfilm::model::stocks::{
    all_film_stock_names, all_known_stock_names, all_print_paper_names, FilmStock, PrintPaper, UnknownStockName,
};
use spectralfilm::profiles::{available_profiles, built_in_profile_index};

#[test]
fn film_stock_names_round_trip() {
    for stock in FilmStock::ALL {
        assert_eq!(FilmStock::from_name(stock.as_str()), Some(stock));
    }
    assert_eq!(FilmStock::KodakPortra400.as_str(), "kodak_portra_400");
    assert_eq!(FilmStock::FujifilmProvia100F.as_str(), "fujifilm_provia_100f");
}

#[test]
fn print_paper_names_round_trip() {
    for paper in PrintPaper::ALL {
        assert_eq!(PrintPaper::from_name(paper.as_str()), Some(paper));
    }
    assert_eq!(PrintPaper::KodakPortraEndura.as_str(), "kodak_portra_endura");
    assert_eq!(PrintPaper::Kodak2383.as_str(), "kodak_2383");
}

#[test]
fn unknown_stock_names_are_rejected() {
    assert_eq!(FilmStock::from_name("kodak_portra_401"), None);
    assert_eq!(FilmStock::from_name("Kodak_Portra_400"), None);
    assert_eq!(FilmStock::from_name(""), None);
    assert_eq!(FilmStock::from_name("kodak_portra_endura"), None);
    assert_eq!(PrintPaper::from_name("kodak_portra_400"), None);
    assert_eq!("kodak_gold_200".parse::<FilmStock>(), Ok(FilmStock::KodakGold200));
    assert_eq!("nope".parse::<FilmStock>(), Err(UnknownStockName));
    assert_eq!("kodak_2393".parse::<PrintPaper>(), Ok(PrintPaper::Kodak2393));
    assert_eq!("kodak_gold_200".parse::<PrintPaper>(), Err(UnknownStockName));
}

#[test]
fn stock_converts_into_its_name() {
    let s: &'static str = FilmStock::KodakVision3500T.into();
    assert_eq!(s, "kodak_vision3_500t");
    let p: &'static str = PrintPaper::FujifilmCrystalArchiveTypeIi.into();
    assert_eq!(p, "fujifilm_crystal_archive_typeii");
}

#[test]
fn known_stock_listing() {
    let films = all_film_stock_names();
    let papers = all_print_paper_names();
    assert_eq!(films.len(), 20);
    assert_eq!(papers.len(), 8);
    assert_eq!(films[0], "kodak_ektar_100");
    assert_eq!(papers[7], "kodak_2393");
    let all = all_known_stock_names();
    assert_eq!(all.len(), 28);
    assert_eq!(&all[..20], &films[..]);
    assert_eq!(&all[20..], &papers[..]);
    for (i, a) in all.iter().enumerate() {
        for b in all.iter().skip(i + 1) {
            assert_ne!(a, b);
        }
    }
}

#[test]
fn built_in_profiles_are_the_known_stocks() {
    let profiles = available_profiles();
    assert_eq!(profiles.len(), 28);
    assert_eq!(profiles[0], "fujifilm_c200");
    assert_eq!(profiles[27], "kodak_vision3_50d");
    let mut known = all_known_stock_names();
    known.sort();
    let mut built_in: Vec<&str> = profiles.to_vec();
    built_in.sort();
    assert_eq!(known, built_in);
}

#[test]
fn built_in_profile_lookup() {
    assert_eq!(built_in_profile_index("fujifilm_c200"), Some(0));
    assert_eq!(built_in_profile_index("kodak_portra_400"), Some(15));
    assert_eq!(built_in_profile_index("kodak_vision3_50d"), Some(27));
    assert_eq!(built_in_profile_index("kodak_portra_4000"), None);
    assert_eq!(built_in_profile_index(""), None);
    for (i, name) in available_profiles().iter().enumerate() {
        assert_eq!(built_in_profile_index(name), Some(i));
    }
}

#[test]
fn built_in_profiles_are_strictly_sorted() {
    let profiles = available_profiles();
    for pair in profiles.windows(2) {
        assert!(pair[0] < pair[1], "{} should come before {}", pair[0], pair[1]);
    }
}
