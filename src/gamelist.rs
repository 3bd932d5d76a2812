use vstd::prelude::*;

verus! {

/// One entry of a system's game list. `path` is the file that the emulator is
/// started with; the other fields describe the game to the user. Paths are kept
/// as text, in the host's path syntax.
#[derive(Debug, Default)]
pub struct Game {
    pub path: Option<String>,
    pub name: Option<String>,
    pub desc: Option<String>,
    pub image: Option<String>,
    pub thumbnail: Option<String>,
    pub video: Option<String>,
    pub rating: Option<String>,
    pub releasedate: Option<String>,
    pub developer: Option<String>,
    pub publisher: Option<String>,
    pub genre: Option<String>,
    pub players: Option<String>,
    pub playcount: Option<usize>,
    pub lastplayed: Option<String>,
    pub sortname: Option<String>,
}

impl Clone for Game {
    fn clone(&self) -> (r: Self)
        ensures
            r == *self,
    {
        Game {
            path: self.path.clone(),
            name: self.name.clone(),
            desc: self.desc.clone(),
            image: self.image.clone(),
            thumbnail: self.thumbnail.clone(),
            video: self.video.clone(),
            rating: self.rating.clone(),
            releasedate: self.releasedate.clone(),
            developer: self.developer.clone(),
            publisher: self.publisher.clone(),
            genre: self.genre.clone(),
            players: self.players.clone(),
            playcount: self.playcount,
            lastplayed: self.lastplayed.clone(),
            sortname: self.sortname.clone(),
        }
    }
}

/// A folder entry of a game list file.
#[derive(Debug)]
pub struct Folder {
    pub name: Option<String>,
    pub desc: Option<String>,
    pub image: Option<String>,
    pub thumbnail: Option<String>,
}

impl Clone for Folder {
    fn clone(&self) -> (r: Self)
        ensures
            r == *self,
    {
        Folder {
            name: self.name.clone(),
            desc: self.desc.clone(),
            image: self.image.clone(),
            thumbnail: self.thumbnail.clone(),
        }
    }
}

/// The contents of one game list file.
#[derive(Debug)]
pub struct GameList {
    pub game: Vec<Game>,
    pub folder: Vec<Folder>,
}

impl Clone for GameList {
    fn clone(&self) -> (r: Self)
        ensures
            r.game@ == self.game@,
            r.folder@ == self.folder@,
    {
        let game = self.game.clone();
        let folder = self.folder.clone();
        assert(game@ =~= self.game@);
        assert(folder@ =~= self.folder@);
        GameList { game, folder }
    }
}

} // verus!
