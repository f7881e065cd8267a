//! Where a named package comes from: a local directory tree or a package server.

use vstd::prelude::*;
use crate::text::{
    concat,
    join_path,
    joined_path,
    same_text,
    split_at_first,
    split_once,
    strip_prefix,
    without_prefix,
};
use crate::util::{copy_file, FileCopy};

verus! {

/// The address that package names are appended to.
pub open spec fn base_remote_package_url() -> Seq<char> {
    "http://192.168.10.207:5959/packages/"@
}

/// A download of one package from the package server.
#[derive(Debug)]
pub struct PackageDownload {
    /// The address to fetch.
    pub url: String,
    /// The local file to write.
    pub target_file: String,
}

/// Finds packages on the package server.
#[derive(Debug)]
pub struct RemoteServerPackageResolver;

impl RemoteServerPackageResolver {
    pub fn new() -> Self {
        RemoteServerPackageResolver
    }

    /// The download that brings `package_name` to `target_file`.
    pub fn resolve(&self, package_name: &str, target_file: &str) -> (download: PackageDownload)
        ensures
            download.url@ == base_remote_package_url() + package_name@,
            download.target_file@ == target_file@,
    {
        PackageDownload {
            url: concat("http://192.168.10.207:5959/packages/", package_name),
            target_file: target_file.to_owned(),
        }
    }
}

/// Whether a package name can be looked up: one under `config/` names an
/// application and, after a further `/`, a file.
pub open spec fn well_formed_package(package: Seq<char>) -> bool {
    without_prefix(package, "docker/"@) is None && without_prefix(package, "service/"@) is None ==> (
    without_prefix(package, "config/"@) matches Some(rest) ==> split_at_first(rest, '/') is Some)
}

/// The file under `root` that holds a package, by the package name's prefix:
/// a Docker image by its name, the Docker packages for the named operating
/// system, a service's archive, or an application's configuration file.
/// `None` for a name with any other prefix.
pub open spec fn local_source(root: Seq<char>, package: Seq<char>) -> Option<Seq<char>> {
    if let Some(image) = without_prefix(package, "docker/images/"@) {
        Some(joined_path(joined_path(root, "docker/images"@), image))
    } else if let Some(os) = without_prefix(package, "docker/"@) {
        Some(
            joined_path(
                joined_path(root, "docker"@),
                if os == "ubuntu"@ {
                    "debs.tar.gz"@
                } else {
                    "rpms.tar.gz"@
                },
            ),
        )
    } else if let Some(service) = without_prefix(package, "service/"@) {
        Some(joined_path(joined_path(root, service), service + ".tar.gz"@))
    } else if let Some(rest) = without_prefix(package, "config/"@) {
        match split_at_first(rest, '/') {
            Some((app, file)) => Some(joined_path(joined_path(joined_path(root, "config"@), app), file)),
            None => None,
        }
    } else {
        None
    }
}

/// Finds packages in a local directory tree.
#[derive(Debug)]
pub struct LocalPackageResolver<'a> {
    pub local_dir: &'a str,
}

impl<'a> LocalPackageResolver<'a> {
    pub fn new(local_dir: &'a str) -> (resolver: Self)
        ensures
            resolver.local_dir@ == local_dir@,
    {
        Self { local_dir }
    }

    /// Whether [`LocalPackageResolver::resolve`] accepts `package_name`.
    pub fn accepts(package_name: &str) -> (accepted: bool)
        ensures
            accepted == well_formed_package(package_name@),
    {
        if strip_prefix(package_name, "docker/").is_some() {
            true
        } else if strip_prefix(package_name, "service/").is_some() {
            true
        } else {
            match strip_prefix(package_name, "config/") {
                Some(rest) => split_once(rest, '/').is_some(),
                None => true,
            }
        }
    }

    fn handle_docker_package(&self, os: &str) -> (file: String)
        ensures
            file@ == joined_path(
                joined_path(self.local_dir@, "docker"@),
                if os@ == "ubuntu"@ {
                    "debs.tar.gz"@
                } else {
                    "rpms.tar.gz"@
                },
            ),
    {
        let file_name = if same_text(os, "ubuntu") {
            "debs.tar.gz"
        } else {
            "rpms.tar.gz"
        };
        join_path(join_path(self.local_dir, "docker").as_str(), file_name)
    }

    fn handle_docker_image(&self, image_name: &str) -> (file: String)
        ensures
            file@ == joined_path(joined_path(self.local_dir@, "docker/images"@), image_name@),
    {
        join_path(join_path(self.local_dir, "docker/images").as_str(), image_name)
    }

    fn handle_service_package(&self, service_name: &str) -> (file: String)
        ensures
            file@ == joined_path(joined_path(self.local_dir@, service_name@), service_name@ + ".tar.gz"@),
    {
        let file_name = concat(service_name, ".tar.gz");
        join_path(join_path(self.local_dir, service_name).as_str(), file_name.as_str())
    }

    fn handle_config_template_file(&self, app: &str, filename: &str) -> (file: String)
        ensures
            file@ == joined_path(joined_path(joined_path(self.local_dir@, "config"@), app@), filename@),
    {
        join_path(join_path(join_path(self.local_dir, "config").as_str(), app).as_str(), filename)
    }

    /// The copy that brings `package_name` to `target_file`, or `None` where
    /// the name has none of the known prefixes and nothing is to be done.
    pub fn resolve(&self, package_name: &str, target_file: &str) -> (copy: Option<FileCopy>)
        requires
            well_formed_package(package_name@),
        ensures
            copy is Some == local_source(self.local_dir@, package_name@) is Some,
            copy matches Some(found) ==> {
                &&& local_source(self.local_dir@, package_name@) == Some(found.source@)
                &&& found.target@ == target_file@
                &&& found.target_dir is Some == crate::text::path_parent(target_file@) is Some
                &&& found.target_dir matches Some(dir) ==> crate::text::path_parent(target_file@) == Some(
                    dir@,
                )
            },
    {
        let file = if let Some(image_name) = strip_prefix(package_name, "docker/images/") {
            self.handle_docker_image(image_name)
        } else if let Some(os) = strip_prefix(package_name, "docker/") {
            self.handle_docker_package(os)
        } else if let Some(service_name) = strip_prefix(package_name, "service/") {
            self.handle_service_package(service_name)
        } else if let Some(rest) = strip_prefix(package_name, "config/") {
            match split_once(rest, '/') {
                Some((app, filename)) => self.handle_config_template_file(app, filename),
                None => {
                    return None;
                },
            }
        } else {
            return None;
        };
        Some(copy_file(file.as_str(), target_file))
    }
}

} // verus!
