use vstd::prelude::*;

verus! {

/// One document from the upstream content source, as the build pipeline
/// ingests it and the document schema lays it out.
#[derive(Debug, Clone)]
pub struct Post {
    pub id: String,
    pub title: String,
    pub url: String,
    pub num_points: u64,
    pub num_comments: u64,
    pub author: String,
    pub created_at: String,
}

/// The mathematical model of a post: every text field as its character
/// sequence, the counters as the machine integers they are.
pub ghost struct PostModel {
    pub id: Seq<char>,
    pub title: Seq<char>,
    pub url: Seq<char>,
    pub num_points: u64,
    pub num_comments: u64,
    pub author: Seq<char>,
    pub created_at: Seq<char>,
}

impl View for Post {
    type V = PostModel;

    open spec fn view(&self) -> PostModel {
        PostModel {
            id: self.id@,
            title: self.title@,
            url: self.url@,
            num_points: self.num_points,
            num_comments: self.num_comments,
            author: self.author@,
            created_at: self.created_at@,
        }
    }
}

impl DeepView for Post {
    type V = PostModel;

    open spec fn deep_view(&self) -> PostModel {
        self.view()
    }
}

} // verus!
