use notracking::kind::{FileType, InstallTarget, BASE_URL};
use std::path::Path;

#[test]
fn names_of_the_lists() {
    assert_eq!(FileType::Domains.as_str(), "domains");
    assert_eq!(FileType::Hostnames.as_str(), "hostnames");
}

#[test]
fn addresses_of_the_lists() {
    assert_eq!(
        FileType::Domains.url(),
        "https://raw.githubusercontent.com/notracking/hosts-blocklists/master/domains.txt"
    );
    assert_eq!(FileType::Hostnames.url(), format!("{}/{}.txt", BASE_URL, "hostnames"));
}

#[test]
fn paths_in_a_directory() {
    let t = InstallTarget::new("/var/lib/lists", FileType::Domains);
    assert_eq!(t.final_path, "/var/lib/lists/domains.txt");
    assert_eq!(t.temp_path, "/var/lib/lists/domains.tmp");
    let t = InstallTarget::new("/var/lib/lists/", FileType::Hostnames);
    assert_eq!(t.final_path, "/var/lib/lists/hostnames.txt");
    assert_eq!(t.temp_path, "/var/lib/lists/hostnames.tmp");
}

#[test]
fn paths_without_a_directory() {
    let t = InstallTarget::new("", FileType::Domains);
    assert_eq!(t.final_path, "domains.txt");
    assert_eq!(t.temp_path, "domains.tmp");
    let t = InstallTarget::new("/", FileType::Domains);
    assert_eq!(t.final_path, "/domains.txt");
}

#[test]
fn temporary_file_stands_beside_the_installed_file() {
    for dir in ["", ".", "..", "/", "/tmp", "/tmp/", "a/b", "a/b/", "with space", "ünï/côde"] {
        for ftype in [FileType::Domains, FileType::Hostnames] {
            let t = InstallTarget::new(dir, ftype);
            assert_ne!(t.final_path, t.temp_path);
            assert_eq!(Path::new(&t.final_path).parent(), Path::new(&t.temp_path).parent());
            assert_eq!(Path::new(&t.final_path).with_extension("tmp"), Path::new(&t.temp_path));
        }
    }
}

#[test]
fn paths_agree_with_path_joining_of_std() {
    for dir in ["", ".", "/", "/tmp", "/tmp/", "a/b", "a/b/", "with space"] {
        for ftype in [FileType::Domains, FileType::Hostnames] {
            let t = InstallTarget::new(dir, ftype);
            let path = Path::new(dir).join(ftype.as_str()).with_extension("txt");
            let path_tmp = path.with_extension("tmp");
            assert_eq!(Path::new(&t.final_path), path, "dir {:?}", dir);
            assert_eq!(Path::new(&t.temp_path), path_tmp, "dir {:?}", dir);
        }
    }
}
