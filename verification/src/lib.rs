//! A blog made of forum discussions.
//!
//! The discussions of a repository are fetched page by page, each is turned
//! into a post, and the published posts become the pages of a static site.
//! This library holds the rules of that build; it reads no file and sends no
//! request. Whoever builds the site hands it the settings, the replies of
//! the API and the entries of the asset directory, and is told what to ask
//! for, what to write and where.
//!
//! - [`query`]: the text of the request for one page of discussions.
//! - [`json`], [`fields`]: reading the API's JSON responses.
//! - [`normalize`]: from the record of a discussion to a [`model::Post`].
//! - [`paging`]: the walk over the pages.
//! - [`site`]: the settings of a build and the choice of the posts to show.
//! - [`layout`]: the files of the site and the copies of the assets.
//! - [`reset`]: clearing the output directory.
//! - [`fault`]: what can be wrong with a response.
//! - [`text`]: cutting titles and timestamps.

pub mod fault;
pub mod fields;
pub mod json;
pub mod layout;
pub mod model;
pub mod normalize;
pub mod paging;
pub mod query;
pub mod reset;
pub mod site;
pub mod text;
