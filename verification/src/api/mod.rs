//! The Anytype API: its data types and the requests the client sends.
pub mod client;
pub mod types;

pub use client::lists::{AddListObjectsRequest, AddListObjectsResponse};
pub use client::members::{GetMemberResponse, ListMembersResponse, Member, MemberRole, MemberStatus};
pub use client::objects::{CreateObjectRequest, Object, UpdateObjectRequest};
pub use client::properties::{
    CreatePropertyRequest, CreatePropertyResponse, GetPropertyResponse, ListPropertiesResponse, Property,
    PropertyFormat, UpdatePropertyRequest,
};
pub use client::search::{SearchObject, SearchRequest, SearchResponse, SearchSpaceRequest, Sort, SortDirection, SortProperty};
pub use client::spaces::{CreateSpaceRequest, CreateSpaceResponse, ListSpacesResponse, Space, UpdateSpaceRequest};
pub use client::tags::{
    CreateTagRequest, CreateTagResponse, DeleteTagResponse, GetTagResponse, ListTagsResponse, Tag, UpdateTagRequest,
    UpdateTagResponse,
};
pub use client::templates::{GetTemplateResponse, ListTemplatesResponse, ObjectType, Template};
pub use client::types::{CreateTypeProperty, CreateTypeRequest, ListTypesResponse, Type, TypeIcon, TypeProperty, UpdateTypeRequest};
pub use client::ClientConfig;
pub use types::{Color, Icon, Layout, Pagination};
